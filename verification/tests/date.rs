use fastdate::{Date, DateError, DateTime};

#[test]
fn test_date() {
    let d = Date::from_str("1234-12-13 11:12:13.123456").unwrap();
    println!("{}", d.format());
    assert_eq!("1234-12-13".to_string(), d.format());
}

#[test]
fn roundtrip_parse_format() {
    for text in [
        "1234-12-13",
        "2000-02-29",
        "0001-01-01",
        "9999-12-31",
        "1970-01-01",
        "2023-06-15",
    ] {
        let d = Date::from_str(text).unwrap();
        let formatted = d.format();
        assert_eq!(formatted, text);
        assert_eq!(Date::from_str(&formatted).unwrap(), d);
    }
}

#[test]
fn leap_year_feb_29() {
    for year in ["2000", "2020", "2400"] {
        let text = format!("{}-02-29", year);
        let d = Date::from_str(&text).unwrap();
        assert_eq!(d.day, 29);
        assert_eq!(d.mon, 2);
    }
    for year in ["1900", "2100", "2023"] {
        let text = format!("{}-02-29", year);
        assert_eq!(Date::from_str(&text), Err(DateError::OutOfRangeDay));
    }
}

#[test]
fn boundary_days() {
    for mon in [1u8, 3, 5, 7, 8, 10, 12] {
        let text = format!("2021-{:02}-31", mon);
        assert_eq!(Date::from_str(&text).unwrap().day, 31);
    }
    for mon in [4u8, 6, 9, 11] {
        let text = format!("2021-{:02}-31", mon);
        assert_eq!(Date::from_str(&text), Err(DateError::OutOfRangeDay));
    }
    for mon in 1u8..=12 {
        let text = format!("2021-{:02}-30", mon);
        if mon == 2 {
            assert_eq!(Date::from_str(&text), Err(DateError::OutOfRangeDay));
        } else {
            assert_eq!(Date::from_str(&text).unwrap().day, 30);
        }
    }
}

#[test]
fn truncation_tolerance() {
    let long = Date::from_str("1234-12-13 11:12:13.123456");
    let short = Date::from_str("1234-12-13");
    assert_eq!(long, short);
    assert_eq!(long.unwrap().format(), "1234-12-13");
    assert_eq!(short.unwrap().format(), "1234-12-13");
}

#[test]
fn malformed_separators_and_digits() {
    assert_eq!(Date::from_str("1234x12-13"), Err(DateError::InvalidCharDateSep));
    assert_eq!(Date::from_str("1234-12x13"), Err(DateError::InvalidCharDateSep));
    assert_eq!(Date::from_str("12a4-12-13"), Err(DateError::InvalidCharYear));
    assert_eq!(Date::from_str("1234-1a-13"), Err(DateError::InvalidCharMonth));
    assert_eq!(Date::from_str("1234-12-1a"), Err(DateError::InvalidCharDay));
    assert_eq!(Date::from_str("1234-12-1"), Err(DateError::TooShort));
    assert_eq!(Date::from_str(""), Err(DateError::TooShort));
}

#[test]
fn out_of_range_month() {
    assert_eq!(Date::from_str("1234-13-01"), Err(DateError::OutOfRangeMonth));
    assert_eq!(Date::from_str("1234-00-01"), Err(DateError::OutOfRangeMonth));
}

#[test]
fn ordering_is_lexicographic_year_first() {
    let a = Date::from_str("2020-05-10").unwrap();
    let b = Date::from_str("2021-01-01").unwrap();
    let c = Date::from_str("2021-02-01").unwrap();
    let e = Date::from_str("2021-02-03").unwrap();
    assert!(a < b);
    assert!(b < c);
    assert!(c < e);
    assert!(a < e);
    assert!(e > a);
    assert!(!(a < a));
    assert!(a <= a);
    assert!(a >= a);
    // day dominates neither month nor year
    let late_day = Date::from_str("2020-05-31").unwrap();
    assert!(late_day < b);
}

#[test]
fn parse_bytes_partial_direct() {
    let d = Date::parse_bytes_partial(b"2024-02-29 23:59:59").unwrap();
    assert_eq!(
        d,
        Date {
            day: 29,
            mon: 2,
            year: 2024
        }
    );
    assert_eq!(Date::parse_bytes_partial(b"2024-02-2"), Err(DateError::TooShort));
}

#[test]
fn format_zero_pads() {
    let d = Date {
        day: 1,
        mon: 1,
        year: 987,
    };
    assert_eq!(d.format(), "0987-01-01");
    let e = Date {
        day: 9,
        mon: 9,
        year: 9,
    };
    assert_eq!(e.format(), "0009-09-09");
}

#[test]
fn max_days_in_month_values() {
    assert_eq!(Date::max_days_in_month(1, 2021), 31);
    assert_eq!(Date::max_days_in_month(2, 2021), 28);
    assert_eq!(Date::max_days_in_month(2, 2024), 29);
    assert_eq!(Date::max_days_in_month(2, 1900), 28);
    assert_eq!(Date::max_days_in_month(2, 2000), 29);
    assert_eq!(Date::max_days_in_month(4, 2021), 30);
    assert_eq!(Date::max_days_in_month(12, 2021), 31);
}

#[test]
fn from_datetime_projects_fields() {
    let dt = DateTime {
        micro: 123456,
        sec: 13,
        min: 12,
        hour: 11,
        day: 13,
        mon: 12,
        year: 1234,
    };
    let d = Date::from(dt);
    assert_eq!(
        d,
        Date {
            day: 13,
            mon: 12,
            year: 1234
        }
    );
    assert_eq!(d.format(), "1234-12-13");
}
