use expend::TimePeriod::{DayRange, Days, SingleDay, Weekdays};
use expend::Weekday::{Friday, Monday, Saturday, Sunday, Thursday, Tuesday, Wednesday};
use expend::{Error, SyntaxProblem, TimePeriod};

#[test]
fn period_weekdays() {
    assert_eq!(TimePeriod::parse("weekdays"), Ok(Weekdays));
    assert_eq!(TimePeriod::parse("  weekdays "), Ok(Weekdays));
}

#[test]
fn period_weekdays_is_case_sensitive() {
    assert_eq!(
        TimePeriod::parse("Weekdays"),
        Err(Error::InvalidWeekday {
            input: "Weekdays".to_string()
        })
    );
}

#[test]
fn period_single_day_in_three_spellings() {
    assert_eq!(TimePeriod::parse("mon"), Ok(SingleDay(Monday)));
    assert_eq!(TimePeriod::parse("Monday"), Ok(SingleDay(Monday)));
    assert_eq!(TimePeriod::parse("  Mon "), Ok(SingleDay(Monday)));
    assert_eq!(TimePeriod::parse("\t\u{a0}sUNDAY\u{2003}\n"), Ok(SingleDay(Sunday)));
}

#[test]
fn period_range_and_reversed_range() {
    assert_eq!(
        TimePeriod::parse("mon-saturday"),
        Ok(DayRange {
            from: Monday,
            to: Saturday
        })
    );
    assert_eq!(
        TimePeriod::parse("wednesday-tue"),
        Err(Error::InvalidDayOrder {
            from: Wednesday,
            to: Tuesday
        })
    );
}

#[test]
fn period_reversed_range_message_suggests_the_swap() {
    let error = TimePeriod::parse("wednesday-tue").unwrap_err();
    assert_eq!(
        error.message(),
        "Day 'Wednesday' must be temporally before 'Tuesday', but came after. Write 'Tuesday-Wednesday' instead."
    );
}

#[test]
fn period_equal_ends_collapse() {
    assert_eq!(TimePeriod::parse("thu-thursday"), Ok(SingleDay(Thursday)));
}

#[test]
fn period_list_is_sorted_and_deduplicated() {
    assert_eq!(
        TimePeriod::parse("mon,tuesday,sun"),
        Ok(Days(vec![Monday, Tuesday, Sunday]))
    );
    assert_eq!(
        TimePeriod::parse("sun,tuesday,mon,SUN,tue"),
        Ok(Days(vec![Monday, Tuesday, Sunday]))
    );
    assert_eq!(
        TimePeriod::parse("sun,sat,fri,thu,wed,tue,mon"),
        Ok(Days(vec![
            Monday, Tuesday, Wednesday, Thursday, Friday, Saturday, Sunday
        ]))
    );
}

#[test]
fn period_duplicates_collapse_to_a_single_day() {
    assert_eq!(TimePeriod::parse("Sunday, sun"), Ok(SingleDay(Sunday)));
}

#[test]
fn period_two_neighbours_are_a_range_three_stay_a_list() {
    assert_eq!(
        TimePeriod::parse("sat,fri"),
        Ok(DayRange {
            from: Friday,
            to: Saturday
        })
    );
    assert_eq!(
        TimePeriod::parse("mon,tue,wed"),
        Ok(Days(vec![Monday, Tuesday, Wednesday]))
    );
    assert_eq!(TimePeriod::parse("mon,wed"), Ok(Days(vec![Monday, Wednesday])));
    assert_eq!(TimePeriod::parse("mon,sun"), Ok(Days(vec![Monday, Sunday])));
}

#[test]
fn period_without_a_day_is_an_error() {
    assert_eq!(
        TimePeriod::parse(", , ,"),
        Err(Error::InvalidTimePeriodSyntax {
            input: ", , ,".to_string(),
            problem: SyntaxProblem::NoWeekday
        })
    );
    assert_eq!(
        TimePeriod::parse("  ,, - "),
        Err(Error::InvalidTimePeriodSyntax {
            input: ",,".to_string(),
            problem: SyntaxProblem::NoWeekday
        })
    );
    assert_eq!(
        TimePeriod::parse(", , ,").unwrap_err().message(),
        "Didn't see a single weekday in ', , ,'"
    );
}

#[test]
fn period_with_three_words_is_an_error() {
    assert_eq!(
        TimePeriod::parse("mon-saturday-tue"),
        Err(Error::InvalidTimePeriodSyntax {
            input: "mon-saturday-tue".to_string(),
            problem: SyntaxProblem::TooManyDays
        })
    );
    assert_eq!(
        TimePeriod::parse("mon-saturday-tue").unwrap_err().message(),
        "More than two days separated by '-' are not allowed in 'mon-saturday-tue'"
    );
}

#[test]
fn period_without_any_word_is_an_error() {
    for empty in ["", "   ", "-", " - - "] {
        assert_eq!(
            TimePeriod::parse(empty),
            Err(Error::InvalidTimePeriodSyntax {
                input: empty.to_string(),
                problem: SyntaxProblem::TooManyDays
            })
        );
    }
}

#[test]
fn period_reports_the_first_word_that_is_no_day() {
    assert_eq!(
        TimePeriod::parse("mon, tuesdy ,wedn"),
        Err(Error::InvalidWeekday {
            input: "tuesdy".to_string()
        })
    );
    assert_eq!(
        TimePeriod::parse("mo - tu"),
        Err(Error::InvalidWeekday {
            input: "mo".to_string()
        })
    );
    assert_eq!(
        TimePeriod::parse("mon - tu"),
        Err(Error::InvalidWeekday {
            input: "tu".to_string()
        })
    );
}

#[test]
fn period_range_ends_are_single_days() {
    assert_eq!(
        TimePeriod::parse("mon,tue-fri"),
        Err(Error::InvalidWeekday {
            input: "mon,tue".to_string()
        })
    );
    assert_eq!(
        TimePeriod::parse("weekdays-fri"),
        Err(Error::InvalidWeekday {
            input: "weekdays".to_string()
        })
    );
}

#[test]
fn period_parse_results_are_in_normal_form() {
    for text in [
        "weekdays",
        "mon",
        "mon-sun",
        "tue,mon",
        "sun,mon",
        "fri,fri,fri",
        "wed, thu, fri, wed",
        "sat - sat",
    ] {
        assert!(TimePeriod::parse(text).unwrap().is_well_formed());
    }
}

#[test]
fn period_normal_form() {
    assert!(Weekdays.is_well_formed());
    assert!(SingleDay(Sunday).is_well_formed());
    assert!(DayRange { from: Monday, to: Tuesday }.is_well_formed());
    assert!(!DayRange { from: Tuesday, to: Tuesday }.is_well_formed());
    assert!(!DayRange { from: Tuesday, to: Monday }.is_well_formed());
    assert!(Days(vec![Monday, Wednesday]).is_well_formed());
    assert!(Days(vec![Monday, Tuesday, Wednesday]).is_well_formed());
    assert!(!Days(vec![]).is_well_formed());
    assert!(!Days(vec![Monday]).is_well_formed());
    assert!(!Days(vec![Monday, Tuesday]).is_well_formed());
    assert!(!Days(vec![Wednesday, Monday]).is_well_formed());
    assert!(!Days(vec![Monday, Wednesday, Wednesday]).is_well_formed());
    assert!(!Days(vec![Monday, Friday, Wednesday]).is_well_formed());
}
