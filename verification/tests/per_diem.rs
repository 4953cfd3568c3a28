use expend::perdiem::{Kind, Mode};
use std::str::FromStr;
use expend::{
    from_date_string, Categories, Category, Context, Country, Destination, Error, Tag, Tags,
    TimePeriod, TransactionList, UserContext, Weekday,
};

fn context(reference: &str, destination: Option<Destination>, comment: Option<&str>) -> Context {
    Context {
        user: UserContext {
            project: "Acme Rollout".to_string(),
            email: "traveller@example.com".to_string(),
            country: Country::Germany,
            destination,
            categories: Categories {
                per_diems: Category {
                    name: "Per Diem".to_string(),
                },
            },
            tags: Tags {
                travel: Tag {
                    name: "Travel".to_string(),
                    billable: true,
                },
            },
        },
        reference_date: Some(from_date_string(reference).unwrap()),
        comment: comment.map(|c| c.to_string()),
    }
}

#[test]
fn weekdays_expand_to_one_element_for_five_days() {
    let ctx = context("2018-09-24", None, None);
    let list =
        TransactionList::from_per_diem(ctx, TimePeriod::Weekdays, Kind::FullDay, Mode::Add)
            .unwrap();
    assert_eq!(list.transaction_list_type, "expenses");
    assert_eq!(list.employee_email, "traveller@example.com");
    assert_eq!(list.transaction_list.len(), 1);
    let e = &list.transaction_list[0];
    assert_eq!(e.created, "2018-09-24");
    assert_eq!(e.comment, "2018-09-24 to 2018-09-28");
    assert_eq!(e.amount, 5 * 2400);
    assert_eq!(e.merchant, "5 * Germany Full Day @ €24.00");
    assert_eq!(e.currency, "EUR");
    assert_eq!(e.category, "Per Diem");
    assert_eq!(e.tag, "Acme Rollout:Travel");
    assert!(e.billable);
    assert!(e.reimbursable);
}

#[test]
fn reference_date_is_moved_to_its_monday() {
    let ctx = context("2018-09-27", None, None);
    let list =
        TransactionList::from_per_diem(ctx, TimePeriod::Weekdays, Kind::FullDay, Mode::Add)
            .unwrap();
    assert_eq!(list.transaction_list[0].created, "2018-09-24");
    assert_eq!(list.transaction_list[0].comment, "2018-09-24 to 2018-09-28");
}

#[test]
fn subtract_negates_the_amount() {
    let add = TransactionList::from_per_diem(
        context("2018-09-24", None, None),
        TimePeriod::DayRange {
            from: Weekday::Tuesday,
            to: Weekday::Thursday,
        },
        Kind::Lunch,
        Mode::Add,
    )
    .unwrap();
    let sub = TransactionList::from_per_diem(
        context("2018-09-24", None, None),
        TimePeriod::DayRange {
            from: Weekday::Tuesday,
            to: Weekday::Thursday,
        },
        Kind::Lunch,
        Mode::Subtract,
    )
    .unwrap();
    assert_eq!(add.transaction_list.len(), 1);
    assert_eq!(sub.transaction_list.len(), 1);
    assert_eq!(add.transaction_list[0].amount, 3 * 960);
    assert_eq!(sub.transaction_list[0].amount, -3 * 960);
    assert_eq!(add.transaction_list[0].merchant, "3 * Germany Lunch/Dinner @ €9.60");
    assert_eq!(sub.transaction_list[0].merchant, "3 * Germany Lunch/Dinner @ €-9.60");
    assert_eq!(add.transaction_list[0].created, "2018-09-25");
    assert_eq!(add.transaction_list[0].comment, "2018-09-25 to 2018-09-27");
}

#[test]
fn arbitrary_set_expands_to_one_element_per_day() {
    let ctx = context("2018-09-24", None, Some("client visit"));
    let list = TransactionList::from_per_diem(
        ctx,
        TimePeriod::Days(vec![Weekday::Monday, Weekday::Wednesday, Weekday::Saturday]),
        Kind::Breakfast,
        Mode::Add,
    )
    .unwrap();
    let created: Vec<&str> = list
        .transaction_list
        .iter()
        .map(|e| e.created.as_str())
        .collect();
    assert_eq!(created, vec!["2018-09-24", "2018-09-26", "2018-09-29"]);
    for e in &list.transaction_list {
        assert_eq!(e.amount, 480);
        assert_eq!(e.merchant, "1 * Germany Breakfast @ €4.80");
        assert_eq!(e.comment, "client visit");
    }
}

#[test]
fn range_comment_carries_the_custom_comment() {
    let ctx = context("2018-09-24", None, Some("workshop"));
    let list = TransactionList::from_per_diem(
        ctx,
        TimePeriod::DayRange {
            from: Weekday::Monday,
            to: Weekday::Tuesday,
        },
        Kind::Daytrip,
        Mode::Add,
    )
    .unwrap();
    assert_eq!(
        list.transaction_list[0].comment,
        "2018-09-24 to 2018-09-25: workshop"
    );
    assert_eq!(list.transaction_list[0].amount, 2 * 1200);
}

#[test]
fn single_day_without_comment_has_an_empty_comment() {
    let ctx = context("2018-09-24", None, None);
    let list = TransactionList::from_per_diem(
        ctx,
        TimePeriod::SingleDay(Weekday::Sunday),
        Kind::Arrival,
        Mode::Add,
    )
    .unwrap();
    assert_eq!(list.transaction_list.len(), 1);
    assert_eq!(list.transaction_list[0].created, "2018-09-30");
    assert_eq!(list.transaction_list[0].comment, "");
    assert_eq!(
        list.transaction_list[0].merchant,
        "1 * Germany Arrival/Departure Day @ €12.00"
    );
}

#[test]
fn destination_changes_rate_and_merchant() {
    let ctx = context("2018-09-24", Some(Destination::IndiaOther), None);
    let list = TransactionList::from_per_diem(
        ctx,
        TimePeriod::SingleDay(Weekday::Monday),
        Kind::FullDay,
        Mode::Add,
    )
    .unwrap();
    assert_eq!(list.transaction_list[0].amount, 3200);
    assert_eq!(
        list.transaction_list[0].merchant,
        "1 * India (other) for Germany Full Day @ €32.00"
    );
}

#[test]
fn meal_for_destination_without_meal_rates_is_an_error() {
    let ctx = context("2018-09-24", Some(Destination::IndiaOther), None);
    let result = TransactionList::from_per_diem(
        ctx,
        TimePeriod::SingleDay(Weekday::Monday),
        Kind::Lunch,
        Mode::Add,
    );
    assert_eq!(
        result,
        Err(Error::UnsupportedRateCombination {
            kind: Kind::Lunch,
            country: Country::Germany,
            destination: Some(Destination::IndiaOther),
        })
    );
}

#[test]
fn rate_table() {
    let g = Country::Germany;
    let india = Some(Destination::IndiaOther);
    assert_eq!(Kind::FullDay.amount(&g, None), Ok(2400));
    assert_eq!(Kind::Daytrip.amount(&g, None), Ok(1200));
    assert_eq!(Kind::Arrival.amount(&g, None), Ok(1200));
    assert_eq!(Kind::Departure.amount(&g, None), Ok(1200));
    assert_eq!(Kind::Breakfast.amount(&g, None), Ok(480));
    assert_eq!(Kind::Lunch.amount(&g, None), Ok(960));
    assert_eq!(Kind::Dinner.amount(&g, None), Ok(960));
    assert_eq!(Kind::FullDay.amount(&g, india), Ok(3200));
    assert_eq!(Kind::Daytrip.amount(&g, india), Ok(2100));
    assert_eq!(Kind::Arrival.amount(&g, india), Ok(2100));
    assert_eq!(Kind::Departure.amount(&g, india), Ok(2100));
    assert!(Kind::Breakfast.amount(&g, india).is_err());
    assert!(Kind::Dinner.amount(&g, india).is_err());
}

#[test]
fn kind_parse_and_label() {
    let all = [
        ("fullday", Kind::FullDay, "Full Day"),
        ("breakfast", Kind::Breakfast, "Breakfast"),
        ("arrival", Kind::Arrival, "Arrival/Departure Day"),
        ("departure", Kind::Departure, "Arrival/Departure Day"),
        ("daytrip", Kind::Daytrip, "Day Trip > 8 Hours"),
        ("lunch", Kind::Lunch, "Lunch/Dinner"),
        ("dinner", Kind::Dinner, "Lunch/Dinner"),
    ];
    for (word, kind, label) in all {
        assert_eq!(Kind::parse(word), Ok(kind));
        assert_eq!(Kind::parse(&word.to_uppercase()), Ok(kind));
        assert_eq!(Kind::from_str(word), Ok(kind));
        assert_eq!(kind.to_string(), label);
    }
    assert_eq!(Kind::parse("FullDay"), Ok(Kind::FullDay));
    for bad in ["", "full day", " lunch", "supper", "Full Day"] {
        assert_eq!(
            Kind::parse(bad),
            Err(Error::InvalidKind {
                input: bad.to_string()
            })
        );
    }
    assert_eq!(
        Kind::parse("supper").unwrap_err().message(),
        "Invalid per diem kind specification: 'supper'"
    );
}

#[test]
fn unsupported_rate_message_names_the_kind() {
    let error = Kind::Dinner
        .amount(&Country::Germany, Some(Destination::IndiaOther))
        .unwrap_err();
    assert_eq!(
        error.message(),
        "The per-diem of kind 'Lunch/Dinner' cannot yield an amount - please try another one."
    );
}

#[test]
fn mode_apply_sets_the_sign() {
    assert_eq!(Mode::Add.apply(2400), 2400);
    assert_eq!(Mode::Subtract.apply(2400), -2400);
    assert_eq!(Mode::Subtract.apply(-5), 5);
    assert_eq!(Mode::Add.apply(0), 0);
    assert_eq!(Mode::Subtract.apply(0), 0);
    assert_eq!(Mode::Subtract.apply(i32::MAX), -i32::MAX);
}

#[test]
fn subtract_negates_every_amount_of_a_list() {
    let days = TimePeriod::Days(vec![Weekday::Monday, Weekday::Thursday, Weekday::Sunday]);
    let add = days
        .clone()
        .into_transactions(&context("2018-09-24", None, None), Kind::Daytrip, Mode::Add)
        .unwrap();
    let sub = days
        .into_transactions(&context("2018-09-24", None, None), Kind::Daytrip, Mode::Subtract)
        .unwrap();
    assert_eq!(add.len(), 3);
    assert_eq!(sub.len(), 3);
    for (a, s) in add.iter().zip(sub.iter()) {
        assert_eq!(a.amount, 1200);
        assert_eq!(s.amount, -a.amount);
        assert_eq!(a.created, s.created);
    }
}

#[test]
fn transactions_in_week_start_on_the_given_day() {
    let wednesday = from_date_string("2018-09-26").unwrap();
    let made = TimePeriod::DayRange {
        from: Weekday::Monday,
        to: Weekday::Sunday,
    }
    .transactions_in_week(
        &wednesday,
        &context("2000-01-01", None, None),
        Kind::FullDay,
        Mode::Add,
    )
    .unwrap();
    assert_eq!(made.len(), 1);
    assert_eq!(made[0].created, "2018-09-26");
    assert_eq!(made[0].comment, "2018-09-26 to 2018-10-02");
    assert_eq!(made[0].amount, 7 * 2400);
    assert_eq!(made[0].merchant, "7 * Germany Full Day @ €24.00");
}

#[test]
fn expansion_fails_past_the_last_date() {
    let last = expend::Date::from_days(expend::date::MAX_DAY).unwrap();
    let ctx = context("2018-09-24", None, None);
    assert_eq!(
        TimePeriod::Weekdays.transactions_in_week(&last, &ctx, Kind::FullDay, Mode::Add),
        Err(Error::DateArithmeticOverflow)
    );
    assert_eq!(
        TimePeriod::Days(vec![Weekday::Monday, Weekday::Wednesday]).transactions_in_week(
            &last,
            &ctx,
            Kind::FullDay,
            Mode::Add
        ),
        Err(Error::DateArithmeticOverflow)
    );
    let made = TimePeriod::SingleDay(Weekday::Monday)
        .transactions_in_week(&last, &ctx, Kind::FullDay, Mode::Add)
        .unwrap();
    assert_eq!(made[0].created, "+262142-12-31");
}

#[test]
fn expansion_fails_before_the_first_monday() {
    let mut ctx = context("2018-09-24", None, None);
    ctx.reference_date = expend::Date::from_days(expend::date::MIN_DAY);
    assert_eq!(
        TimePeriod::Weekdays.into_transactions(&ctx, Kind::FullDay, Mode::Add),
        Err(Error::DateArithmeticOverflow)
    );
    assert_eq!(
        Error::DateArithmeticOverflow.message(),
        "Failed to compute a date in the reference week."
    );
}

#[test]
fn expansion_without_reference_date_is_for_the_current_week() {
    let mut ctx = context("2018-09-24", None, None);
    ctx.reference_date = None;
    let monday = ctx.monday_of_reference_date().unwrap();
    let made = TimePeriod::SingleDay(Weekday::Monday)
        .into_transactions(&ctx, Kind::FullDay, Mode::Add)
        .unwrap();
    assert_eq!(made.len(), 1);
    assert_eq!(made[0].created, monday.to_string());
}
