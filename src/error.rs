use vstd::prelude::*;

verus! {

#[verifier::external_type_specification]
#[verifier::external_body]
pub struct ExParseError(url::ParseError);

/// Relies on url::ParseError's Display impl for the error's description.
#[verifier::external_body]
fn parse_error_text(e: &url::ParseError) -> (r: String) {
    e.to_string()
}

/// What can go wrong when prices are requested and decoded.
#[derive(Clone, Copy, Debug, PartialEq, Eq)]
pub enum Error {
    /// The date precedes the earliest day that the price source covers.
    DateTooEarly,
    /// The price source has no prices for the date (not yet published, or none at all).
    PricesUnavailable,
    /// A timestamp did not have the form `YYYY-MM-DDTHH:MM:SS±HH`.
    MalformedTimestamp,
    /// The price source answered with a status that is neither success nor
    /// client error; the transport reports the details.
    UnexpectedStatus(u16),
    /// The request's address could not be formed.
    InvalidUrl(url::ParseError),
}

impl Error {
    /// A description of the error for people.
    pub fn message(&self) -> (r: String)
        ensures
            *self is DateTooEarly ==> r@ == "Date is before the minimum acceptable date"@,
            *self is PricesUnavailable ==> r@ == "Prices are not available for this date"@,
            *self is MalformedTimestamp ==> r@ == "Malformed timestamp"@,
            *self is UnexpectedStatus ==> r@ == "Unexpected HTTP status"@,
    {
        match self {
            Error::DateTooEarly => String::from_str("Date is before the minimum acceptable date"),
            Error::PricesUnavailable => String::from_str("Prices are not available for this date"),
            Error::MalformedTimestamp => String::from_str("Malformed timestamp"),
            Error::UnexpectedStatus(_) => String::from_str("Unexpected HTTP status"),
            Error::InvalidUrl(e) => parse_error_text(e),
        }
    }
}

} // verus!
