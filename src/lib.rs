//! Hourly electricity spot prices for the Norwegian price regions.
//!
//! The library builds the request for one day's prices, validates the date
//! against the earliest day the price source covers, classifies the answer's
//! status, and decodes the price source's timestamps into exact instants.
pub mod calendar;
pub mod date;
pub mod error;
pub mod local_time;
pub mod region;
pub mod request;

pub use date::Date;
pub use error::Error;
pub use local_time::{decode_local_time, OffsetDateTime, UtcDateTime};
pub use region::PriceRegion;
pub use request::Strompris;
