use expend::date::{MAX_DAY, MIN_DAY};
use expend::{from_date_string, Date, Error};

#[test]
fn date_day_one_is_january_first_of_year_one() {
    assert_eq!(Date::from_days(1).unwrap().to_string(), "0001-01-01");
    assert_eq!(Date::from_days(0).unwrap().to_string(), "0000-12-31");
    assert_eq!(Date::from_days(730_000).unwrap().to_string(), "1999-09-03");
}

#[test]
fn date_range_is_the_calendar_range() {
    assert_eq!(Date::from_days(MIN_DAY).unwrap().to_string(), "-262143-01-01");
    assert_eq!(Date::from_days(MAX_DAY).unwrap().to_string(), "+262142-12-31");
    assert_eq!(Date::from_days(MIN_DAY - 1), None);
    assert_eq!(Date::from_days(MAX_DAY + 1), None);
    assert_eq!(Date::from_days(i32::MIN), None);
    assert_eq!(Date::from_days(i32::MAX), None);
}

#[test]
fn date_add_days_moves_by_day_number() {
    let date = from_date_string("2018-09-24").unwrap();
    assert_eq!(date.checked_add_days(0).unwrap(), date);
    assert_eq!(date.checked_add_days(4).unwrap().to_string(), "2018-09-28");
    assert_eq!(date.checked_add_days(-24).unwrap().to_string(), "2018-08-31");
    assert_eq!(date.checked_add_days(365).unwrap().days(), date.days() + 365);
    assert_eq!(date.checked_add_days(-1000).unwrap().days(), date.days() - 1000);
}

#[test]
fn date_add_days_fails_outside_the_range() {
    let first = Date::from_days(MIN_DAY).unwrap();
    let last = Date::from_days(MAX_DAY).unwrap();
    assert_eq!(first.checked_add_days(-1), Err(Error::DateArithmeticOverflow));
    assert_eq!(last.checked_add_days(1), Err(Error::DateArithmeticOverflow));
    assert_eq!(first.checked_add_days(1).unwrap().days(), MIN_DAY + 1);
    assert_eq!(last.checked_add_days(-1).unwrap().days(), MAX_DAY - 1);
    assert_eq!(
        first
            .checked_add_days(MAX_DAY as i64 - MIN_DAY as i64)
            .unwrap()
            .days(),
        MAX_DAY
    );
    assert_eq!(last.checked_add_days(i64::MAX), Err(Error::DateArithmeticOverflow));
    assert_eq!(last.checked_add_days(i64::MIN), Err(Error::DateArithmeticOverflow));
    assert_eq!(first.checked_add_days(i64::MAX), Err(Error::DateArithmeticOverflow));
}

#[test]
fn date_monday_of_week() {
    let expected = "2018-09-24";
    for day in [
        "2018-09-24",
        "2018-09-25",
        "2018-09-26",
        "2018-09-27",
        "2018-09-28",
        "2018-09-29",
        "2018-09-30",
    ] {
        let date = from_date_string(day).unwrap();
        assert_eq!(date.monday_of_week().unwrap().to_string(), expected);
    }
    let next = from_date_string("2018-10-01").unwrap();
    assert_eq!(next.monday_of_week().unwrap().to_string(), "2018-10-01");
}

#[test]
fn date_monday_of_week_at_the_ends_of_the_range() {
    // The first representable day is a Thursday: its week starts out of range.
    let first = Date::from_days(MIN_DAY).unwrap();
    assert_eq!(first.monday_of_week(), Err(Error::DateArithmeticOverflow));
    let sunday = Date::from_days(MIN_DAY + 3).unwrap();
    assert_eq!(sunday.monday_of_week(), Err(Error::DateArithmeticOverflow));
    let monday = Date::from_days(MIN_DAY + 4).unwrap();
    assert_eq!(monday.monday_of_week().unwrap().days(), MIN_DAY + 4);
    let tuesday = Date::from_days(MIN_DAY + 5).unwrap();
    assert_eq!(tuesday.monday_of_week().unwrap().days(), MIN_DAY + 4);
    // The last representable day is a Monday.
    let last = Date::from_days(MAX_DAY).unwrap();
    assert_eq!(last.monday_of_week().unwrap().days(), MAX_DAY);
    let before = Date::from_days(MAX_DAY - 1).unwrap();
    assert_eq!(before.monday_of_week().unwrap().days(), MAX_DAY - 7);
}

#[test]
fn date_from_date_string_reads_iso_dates() {
    let date = from_date_string("2018-09-25").unwrap();
    assert_eq!(date.to_string(), "2018-09-25");
    assert_eq!(date.days(), 736_962);
    assert_eq!(from_date_string("1970-01-01").unwrap().days(), 719_163);
    assert_eq!(from_date_string("2020-02-29").unwrap().to_string(), "2020-02-29");
}

#[test]
fn date_from_date_string_refuses_what_is_no_date() {
    for bad in ["", "yesterday", "2018-13-01", "2019-02-29", "2018-09-25T10:00:00Z", "25.09.2018"] {
        assert_eq!(
            from_date_string(bad),
            Err(Error::InvalidDate {
                input: bad.to_string()
            })
        );
    }
    assert_eq!(
        from_date_string("2018-13-01").unwrap_err().message(),
        "Could not parse date string '2018-13-01'"
    );
}
