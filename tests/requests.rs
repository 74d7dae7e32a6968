use strompris::request::endpoint;
use strompris::{Date, Error, PriceRegion, Strompris};

#[test]
fn blocking_returns_error_when_given_an_early_date() {
    let date = Date::from_ymd_opt(2021, 11, 30).unwrap();
    let client = Strompris::default();
    let result = client.request_url(&date, PriceRegion::NO1);
    assert_eq!(
        result.err().map(|e| e.message()).unwrap(),
        "Date is before the minimum acceptable date".to_string()
    );
}

#[test]
fn blocking_returns_error_when_getting_price_from_futre() {
    // The price source answers 404 for a day it has no prices for.
    let date = Date::from_ymd_opt(2999, 11, 30).unwrap();
    let client = Strompris::default();
    assert!(client.request_url(&date, PriceRegion::NO1).is_ok());
    let result = Strompris::check_status(404);
    assert_eq!(
        result.err().map(|e| e.message()).unwrap(),
        "Prices are not available for this date".to_string()
    );
}

#[test]
fn early_dates_are_refused_before_any_request() {
    let client = Strompris::new();
    for (y, m, d) in [(2021, 11, 30), (2021, 1, 1), (1999, 12, 31), (-5, 6, 1), (2020, 12, 1)] {
        let date = Date::from_ymd_opt(y, m, d).unwrap();
        assert!(!client.date_after_min_date(&date));
        assert_eq!(client.request_address(&date, PriceRegion::NO3), Err(Error::DateTooEarly));
        assert!(matches!(client.request_url(&date, PriceRegion::NO3), Err(Error::DateTooEarly)));
    }
}

#[test]
fn the_minimum_date_itself_is_accepted() {
    let client = Strompris::new();
    let date = Date::from_ymd_opt(2021, 12, 1).unwrap();
    assert!(client.date_after_min_date(&date));
    assert_eq!(
        client.request_address(&date, PriceRegion::NO2).unwrap(),
        "https://www.hvakosterstrommen.no/api/v1/prices/2021/12-01_NO2.json"
    );
}

#[test]
fn region_tokens_are_the_region_names() {
    assert_eq!(PriceRegion::NO1.token(), "NO1");
    assert_eq!(PriceRegion::NO2.token(), "NO2");
    assert_eq!(PriceRegion::NO3.token(), "NO3");
    assert_eq!(PriceRegion::NO4.token(), "NO4");
    assert_eq!(PriceRegion::NO5.token(), "NO5");
}

#[test]
fn endpoint_pads_month_and_day() {
    let date = Date::from_ymd_opt(2024, 1, 31).unwrap();
    assert_eq!(endpoint(&date, PriceRegion::NO1), "2024/01-31_NO1.json");
    let date = Date::from_ymd_opt(2024, 7, 4).unwrap();
    assert_eq!(endpoint(&date, PriceRegion::NO5), "2024/07-04_NO5.json");
    let date = Date::from_ymd_opt(2023, 12, 15).unwrap();
    assert_eq!(endpoint(&date, PriceRegion::NO4), "2023/12-15_NO4.json");
}

#[test]
fn endpoint_writes_the_year_unpadded() {
    let date = Date::from_ymd_opt(7, 3, 9).unwrap();
    assert_eq!(endpoint(&date, PriceRegion::NO2), "7/03-09_NO2.json");
    let date = Date::from_ymd_opt(-44, 3, 15).unwrap();
    assert_eq!(endpoint(&date, PriceRegion::NO3), "-44/03-15_NO3.json");
    let date = Date::from_ymd_opt(262142, 12, 31).unwrap();
    assert_eq!(endpoint(&date, PriceRegion::NO1), "262142/12-31_NO1.json");
}

#[test]
fn request_url_joins_the_path_to_the_root() {
    let client = Strompris::default();
    let date = Date::from_ymd_opt(2024, 7, 14).unwrap();
    let url = client.request_url(&date, PriceRegion::NO1).unwrap();
    assert_eq!(
        url.as_str(),
        "https://www.hvakosterstrommen.no/api/v1/prices/2024/07-14_NO1.json"
    );
}

#[test]
fn client_errors_mean_no_prices() {
    for status in [400u16, 403, 404, 451, 499] {
        assert_eq!(Strompris::check_status(status), Err(Error::PricesUnavailable));
    }
    for status in [200u16, 204, 299] {
        assert_eq!(Strompris::check_status(status), Ok(()));
    }
}

#[test]
fn other_statuses_are_transport_failures() {
    for status in [100u16, 199, 301, 399, 500, 503, 599] {
        assert_eq!(Strompris::check_status(status), Err(Error::UnexpectedStatus(status)));
    }
}

#[test]
fn error_messages() {
    assert_eq!(Error::DateTooEarly.message(), "Date is before the minimum acceptable date");
    assert_eq!(Error::PricesUnavailable.message(), "Prices are not available for this date");
    assert_eq!(Error::MalformedTimestamp.message(), "Malformed timestamp");
    assert_eq!(Error::UnexpectedStatus(500).message(), "Unexpected HTTP status");
    let e = Error::InvalidUrl(url::ParseError::EmptyHost);
    assert_eq!(e.message(), url::ParseError::EmptyHost.to_string());
}
