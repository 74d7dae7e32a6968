use strompris::Date;

#[test]
fn from_ymd_opt_accepts_only_existing_days() {
    assert!(Date::from_ymd_opt(2024, 2, 29).is_some());
    assert!(Date::from_ymd_opt(2023, 2, 29).is_none());
    assert!(Date::from_ymd_opt(2000, 2, 29).is_some());
    assert!(Date::from_ymd_opt(1900, 2, 29).is_none());
    assert!(Date::from_ymd_opt(2024, 4, 31).is_none());
    assert!(Date::from_ymd_opt(2024, 0, 1).is_none());
    assert!(Date::from_ymd_opt(2024, 13, 1).is_none());
    assert!(Date::from_ymd_opt(2024, 1, 0).is_none());
    assert!(Date::from_ymd_opt(262142, 12, 31).is_some());
    assert!(Date::from_ymd_opt(262143, 1, 1).is_none());
    assert!(Date::from_ymd_opt(-262143, 1, 1).is_some());
    assert!(Date::from_ymd_opt(-262144, 12, 31).is_none());
}

#[test]
fn accessors() {
    let d = Date::from_ymd_opt(2024, 7, 14).unwrap();
    assert_eq!((d.year(), d.month(), d.day()), (2024, 7, 14));
    assert_eq!((d.month0(), d.day0()), (6, 13));
    assert_eq!(d.ordinal(), 196);
    assert_eq!(d.ordinal0(), 195);
    let d = Date::from_ymd_opt(2023, 12, 31).unwrap();
    assert_eq!(d.ordinal(), 365);
    let d = Date::from_ymd_opt(2024, 12, 31).unwrap();
    assert_eq!(d.ordinal(), 366);
}

#[test]
fn with_fields() {
    let d = Date::from_ymd_opt(2024, 2, 29).unwrap();
    assert_eq!(d.with_year(2023), None);
    assert_eq!(d.with_year(2028), Date::from_ymd_opt(2028, 2, 29));
    assert_eq!(d.with_month(3), Date::from_ymd_opt(2024, 3, 29));
    assert_eq!(d.with_month(4), Date::from_ymd_opt(2024, 4, 29));
    assert_eq!(d.with_month(13), None);
    assert_eq!(d.with_month0(0), Date::from_ymd_opt(2024, 1, 29));
    assert_eq!(d.with_month0(12), None);
    assert_eq!(d.with_day(1), Date::from_ymd_opt(2024, 2, 1));
    assert_eq!(d.with_day(30), None);
    assert_eq!(d.with_day0(27), Date::from_ymd_opt(2024, 2, 28));
    assert_eq!(d.with_day0(u32::MAX), None);
}

#[test]
fn with_ordinal() {
    let d = Date::from_ymd_opt(2024, 7, 14).unwrap();
    assert_eq!(d.with_ordinal(1), Date::from_ymd_opt(2024, 1, 1));
    assert_eq!(d.with_ordinal(60), Date::from_ymd_opt(2024, 2, 29));
    assert_eq!(d.with_ordinal(196), Some(d));
    assert_eq!(d.with_ordinal(366), Date::from_ymd_opt(2024, 12, 31));
    assert_eq!(d.with_ordinal(367), None);
    assert_eq!(d.with_ordinal(0), None);
    assert_eq!(d.with_ordinal0(59), Date::from_ymd_opt(2024, 2, 29));
    assert_eq!(d.with_ordinal0(u32::MAX), None);
    let d = Date::from_ymd_opt(2023, 5, 5).unwrap();
    assert_eq!(d.with_ordinal(60), Date::from_ymd_opt(2023, 3, 1));
    assert_eq!(d.with_ordinal(366), None);
}

#[test]
fn dates_order_chronologically() {
    let a = Date::from_ymd_opt(2021, 11, 30).unwrap();
    let b = Date::from_ymd_opt(2021, 12, 1).unwrap();
    let c = Date::from_ymd_opt(2022, 1, 1).unwrap();
    assert!(a < b && b < c);
    assert_eq!(a.max(c), c);
}

#[test]
fn default_date_is_the_unix_epoch() {
    assert_eq!(Date::default(), Date::from_ymd_opt(1970, 1, 1).unwrap());
}
