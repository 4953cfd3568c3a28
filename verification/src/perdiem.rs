//! Per diems: their kinds, their rates, and their expansion into
//! transactions.

use crate::context::{Context, Country, Destination, UserContext};
use crate::date::{checked_day, date_outcome, is_day_number, iso_date_text, monday_of, Date};
use crate::error::{Error, ErrorView};
use crate::expensify::{
    element_views, ElementView, TransactionList, TransactionListElement, TransactionListView,
};
use crate::text::{decimal, lowercase, matches_lowercase, money, push_decimal, push_money, to_chars};
use crate::timeperiod::{TimePeriod, TimePeriodView};
use crate::weekday::Weekday;
use vstd::prelude::*;
use vstd::string::StringExecFns;

verus! {

/// Whether a per diem is claimed or taken back.
#[derive(Debug, Clone, Copy, PartialEq, Eq, Structural)]
pub enum Mode {
    Add,
    Subtract,
}

/// The kinds of per diem.
#[derive(Debug, Clone, Copy, PartialEq, Eq, Structural)]
pub enum Kind {
    FullDay,
    Breakfast,
    Arrival,
    Departure,
    Daytrip,
    Lunch,
    Dinner,
}

impl Mode {
    /// The factor that the mode puts on an amount: 1 or -1.
    pub open spec fn sign(self) -> int {
        match self {
            Mode::Add => 1,
            Mode::Subtract => -1,
        }
    }

    /// `amount` as it is, or negated where the mode takes it back.
    pub fn apply(&self, amount: i32) -> (signed: i32)
        requires
            amount > i32::MIN,
        ensures
            signed == amount * self.sign(),
    {
        match self {
            Mode::Add => amount,
            Mode::Subtract => -amount,
        }
    }
}

/// The rate table: what one day of `kind` pays, in hundredths of the
/// country's currency, for a journey within `country` or to `destination`.
/// `None` where no rate is set.
pub open spec fn rate(kind: Kind, country: Country, destination: Option<Destination>) -> Option<
    nat,
> {
    match (country, destination) {
        (Country::Germany, Some(Destination::IndiaOther)) => match kind {
            Kind::FullDay => Some(3200nat),
            Kind::Daytrip | Kind::Arrival | Kind::Departure => Some(2100nat),
            Kind::Breakfast | Kind::Lunch | Kind::Dinner => None,
        },
        (Country::Germany, None) => match kind {
            Kind::FullDay => Some(2400nat),
            Kind::Daytrip | Kind::Arrival | Kind::Departure => Some(1200nat),
            Kind::Breakfast => Some(480nat),
            Kind::Lunch | Kind::Dinner => Some(960nat),
        },
    }
}

/// The highest rate of the table.
pub const MAX_RATE: u32 = 3200;

/// The amount that [`rate`] gives, or the error that names the combination
/// for which it gives none.
pub open spec fn rate_or_error(
    kind: Kind,
    country: Country,
    destination: Option<Destination>,
) -> Result<nat, ErrorView> {
    match rate(kind, country, destination) {
        Some(amount) => Ok(amount),
        None => Err(ErrorView::UnsupportedRateCombination { kind, country, destination }),
    }
}

/// The words that say where a journey leads, as they stand before the
/// country in a merchant line.
pub open spec fn destination_phrase(destination: Option<Destination>) -> Seq<char> {
    match destination {
        Some(place) => place.name() + " for "@,
        None => Seq::empty(),
    }
}

/// The merchant line of an expense of `num_days` days of `kind` at `unit`
/// hundredths a day.
pub open spec fn merchant_text(
    num_days: nat,
    user: &UserContext,
    kind: Kind,
    mode: Mode,
    unit: nat,
) -> Seq<char> {
    decimal(num_days) + " * "@ + destination_phrase(user.destination) + user.country.name() + " "@
        + kind.label() + " @ "@ + user.country.spec_currency().sign() + money(mode.sign() * unit)
}

/// The expense for `num_days` days of `kind`, dated `created` and commented
/// `comment`, or the error of the rate table.
pub open spec fn element(
    user: &UserContext,
    kind: Kind,
    mode: Mode,
    created: Seq<char>,
    comment: Seq<char>,
    num_days: nat,
) -> Result<ElementView, ErrorView> {
    match rate_or_error(kind, user.country, user.destination) {
        Err(error) => Err(error),
        Ok(unit) => Ok(
            ElementView {
                created,
                currency: user.country.spec_currency().code(),
                merchant: merchant_text(num_days, user, kind, mode, unit),
                amount: unit * num_days * mode.sign(),
                category: user.categories.per_diems.name@,
                tag: user.project@ + ":"@ + user.tags.travel.name@,
                billable: user.tags.travel.billable,
                reimbursable: true,
                comment,
            },
        ),
    }
}

/// The comment of an expense for one day: the context's, or none.
pub open spec fn single_day_comment(ctx: &Context) -> Seq<char> {
    match ctx.comment {
        Some(comment) => comment@,
        None => Seq::empty(),
    }
}

/// The comment of an expense for the days numbered `from` to `to`: the two
/// dates, and after them the context's comment where it has one.
pub open spec fn range_comment(ctx: &Context, from: int, to: int) -> Seq<char> {
    let span = iso_date_text(from) + " to "@ + iso_date_text(to);
    match ctx.comment {
        Some(comment) => span + ": "@ + comment@,
        None => span,
    }
}

/// The expense for the one day numbered `day`.
pub open spec fn single_day_element(ctx: &Context, kind: Kind, mode: Mode, day: int) -> Result<
    ElementView,
    ErrorView,
> {
    element(&ctx.user, kind, mode, iso_date_text(day), single_day_comment(ctx), 1)
}

/// The one expense for all the days numbered `from` to `to`.
pub open spec fn range_element(ctx: &Context, kind: Kind, mode: Mode, from: int, to: int) -> Result<
    ElementView,
    ErrorView,
> {
    element(
        &ctx.user,
        kind,
        mode,
        iso_date_text(from),
        range_comment(ctx, from, to),
        (to - from + 1) as nat,
    )
}

/// The expense for `day` of the week that starts on the day numbered
/// `monday`; the overflow error where that day cannot be represented.
pub open spec fn weekday_element(
    ctx: &Context,
    kind: Kind,
    mode: Mode,
    monday: int,
    day: Weekday,
) -> Result<ElementView, ErrorView> {
    if is_day_number(monday + day.ordinal()) {
        single_day_element(ctx, kind, mode, monday + day.ordinal())
    } else {
        Err(ErrorView::DateArithmeticOverflow)
    }
}

/// The one expense for the days from `from` to `to` of the week that starts
/// on the day numbered `monday`; the overflow error where one of the two
/// cannot be represented.
pub open spec fn week_range_element(
    ctx: &Context,
    kind: Kind,
    mode: Mode,
    monday: int,
    from: Weekday,
    to: Weekday,
) -> Result<ElementView, ErrorView> {
    if is_day_number(monday + from.ordinal()) && is_day_number(monday + to.ordinal()) {
        range_element(ctx, kind, mode, monday + from.ordinal(), monday + to.ordinal())
    } else {
        Err(ErrorView::DateArithmeticOverflow)
    }
}

/// One expense for each of `days`, in their order; the first error on the
/// way, if there is one.
pub open spec fn day_elements(
    ctx: &Context,
    kind: Kind,
    mode: Mode,
    monday: int,
    days: Seq<Weekday>,
) -> Result<Seq<ElementView>, ErrorView>
    decreases days.len(),
{
    if days.len() == 0 {
        Ok(Seq::empty())
    } else {
        match day_elements(ctx, kind, mode, monday, days.drop_last()) {
            Err(error) => Err(error),
            Ok(before) => match weekday_element(ctx, kind, mode, monday, days.last()) {
                Err(error) => Err(error),
                Ok(last) => Ok(before.push(last)),
            },
        }
    }
}

/// `result` as a list of one expense.
pub open spec fn alone(result: Result<ElementView, ErrorView>) -> Result<
    Seq<ElementView>,
    ErrorView,
> {
    match result {
        Ok(element) => Ok(seq![element]),
        Err(error) => Err(error),
    }
}

/// The expenses that `period` stands for in the week that starts on the day
/// numbered `monday`: one for a single day, one for all of a range, one for
/// Monday to Friday, and one for each day of a list.
pub open spec fn expansion(
    ctx: &Context,
    period: TimePeriodView,
    kind: Kind,
    mode: Mode,
    monday: int,
) -> Result<Seq<ElementView>, ErrorView> {
    match period {
        TimePeriodView::Weekdays => alone(
            week_range_element(ctx, kind, mode, monday, Weekday::Monday, Weekday::Friday),
        ),
        TimePeriodView::SingleDay(day) => alone(weekday_element(ctx, kind, mode, monday, day)),
        TimePeriodView::DayRange { from, to } => alone(
            week_range_element(ctx, kind, mode, monday, from, to),
        ),
        TimePeriodView::Days(days) => day_elements(ctx, kind, mode, monday, days),
    }
}

/// The expenses that `period` stands for in the week that holds the day
/// numbered `reference`.
pub open spec fn transactions(
    ctx: &Context,
    period: TimePeriodView,
    kind: Kind,
    mode: Mode,
    reference: int,
) -> Result<Seq<ElementView>, ErrorView> {
    match checked_day(monday_of(reference)) {
        Ok(monday) => expansion(ctx, period, kind, mode, monday),
        Err(error) => Err(error),
    }
}

/// The expense report that `period` stands for in the week that holds the
/// day numbered `reference`.
pub open spec fn per_diem_report(
    ctx: &Context,
    period: TimePeriodView,
    kind: Kind,
    mode: Mode,
    reference: int,
) -> Result<TransactionListView, ErrorView> {
    match transactions(ctx, period, kind, mode, reference) {
        Ok(elements) => Ok(
            TransactionListView {
                transaction_list_type: "expenses"@,
                employee_email: ctx.user.email@,
                transaction_list: elements,
            },
        ),
        Err(error) => Err(error),
    }
}

/// What a result with one expense holds.
pub open spec fn element_outcome(result: Result<TransactionListElement, Error>) -> Result<
    ElementView,
    ErrorView,
> {
    match result {
        Ok(element) => Ok(element@),
        Err(error) => Err(error@),
    }
}

/// What a result with a list of expenses holds.
pub open spec fn list_outcome(result: Result<Vec<TransactionListElement>, Error>) -> Result<
    Seq<ElementView>,
    ErrorView,
> {
    match result {
        Ok(elements) => Ok(element_views(elements@)),
        Err(error) => Err(error@),
    }
}

/// What a result with an expense report holds.
pub open spec fn report_outcome(result: Result<TransactionList, Error>) -> Result<
    TransactionListView,
    ErrorView,
> {
    match result {
        Ok(list) => Ok(list@),
        Err(error) => Err(error@),
    }
}

/// To take per diems back is to claim them with the opposite sign. For the
/// same context, selection, kind and week, the two modes fail together, with
/// the same error, or give equally many expenses, each amount the negation
/// of its counterpart.
pub proof fn lemma_subtract_negates_in_week(
    ctx: &Context,
    period: TimePeriodView,
    kind: Kind,
    monday: int,
)
    ensures
        match (
            expansion(ctx, period, kind, Mode::Add, monday),
            expansion(ctx, period, kind, Mode::Subtract, monday),
        ) {
            (Ok(added), Ok(taken)) => {
                &&& added.len() == taken.len()
                &&& forall|i: int| 0 <= i < added.len() ==> taken[i].amount == -added[i].amount
            },
            (Err(claimed), Err(refused)) => claimed == refused,
            _ => false,
        },
{
    match period {
        TimePeriodView::Weekdays => {
            lemma_subtract_negates_element(
                &ctx.user,
                kind,
                iso_date_text(monday),
                range_comment(ctx, monday, monday + 4),
                5,
            );
        },
        TimePeriodView::SingleDay(day) => {
            lemma_subtract_negates_element(
                &ctx.user,
                kind,
                iso_date_text(monday + day.ordinal()),
                single_day_comment(ctx),
                1,
            );
        },
        TimePeriodView::DayRange { from, to } => {
            lemma_subtract_negates_element(
                &ctx.user,
                kind,
                iso_date_text(monday + from.ordinal()),
                range_comment(ctx, monday + from.ordinal(), monday + to.ordinal()),
                (to.ordinal() - from.ordinal() + 1) as nat,
            );
        },
        TimePeriodView::Days(days) => {
            lemma_subtract_negates_days(ctx, kind, monday, days);
        },
    }
}

/// The law of [`lemma_subtract_negates_in_week`], for the week that holds
/// the day numbered `reference`.
pub proof fn lemma_subtract_negates(
    ctx: &Context,
    period: TimePeriodView,
    kind: Kind,
    reference: int,
)
    ensures
        match (
            transactions(ctx, period, kind, Mode::Add, reference),
            transactions(ctx, period, kind, Mode::Subtract, reference),
        ) {
            (Ok(added), Ok(taken)) => {
                &&& added.len() == taken.len()
                &&& forall|i: int| 0 <= i < added.len() ==> taken[i].amount == -added[i].amount
            },
            (Err(claimed), Err(refused)) => claimed == refused,
            _ => false,
        },
{
    lemma_subtract_negates_in_week(ctx, period, kind, monday_of(reference));
}

/// The law of [`lemma_subtract_negates_in_week`], for a list of days.
pub proof fn lemma_subtract_negates_days(ctx: &Context, kind: Kind, monday: int, days: Seq<Weekday>)
    ensures
        match (
            day_elements(ctx, kind, Mode::Add, monday, days),
            day_elements(ctx, kind, Mode::Subtract, monday, days),
        ) {
            (Ok(added), Ok(taken)) => {
                &&& added.len() == taken.len()
                &&& forall|i: int| 0 <= i < added.len() ==> taken[i].amount == -added[i].amount
            },
            (Err(claimed), Err(refused)) => claimed == refused,
            _ => false,
        },
    decreases days.len(),
{
    if days.len() > 0 {
        lemma_subtract_negates_days(ctx, kind, monday, days.drop_last());
        let day = monday + days.last().ordinal();
        lemma_subtract_negates_element(
            &ctx.user,
            kind,
            iso_date_text(day),
            single_day_comment(ctx),
            1,
        );
        let before_added = day_elements(ctx, kind, Mode::Add, monday, days.drop_last());
        let before_taken = day_elements(ctx, kind, Mode::Subtract, monday, days.drop_last());
        let added = day_elements(ctx, kind, Mode::Add, monday, days);
        let taken = day_elements(ctx, kind, Mode::Subtract, monday, days);
        if added is Ok {
            assert forall|i: int| 0 <= i < added->Ok_0.len() implies taken->Ok_0[i].amount
                == -added->Ok_0[i].amount by {
                if i < before_added->Ok_0.len() {
                    assert(added->Ok_0[i] == before_added->Ok_0[i]);
                    assert(taken->Ok_0[i] == before_taken->Ok_0[i]);
                }
            }
        }
    }
}

/// The law of [`lemma_subtract_negates_in_week`], for one expense.
pub proof fn lemma_subtract_negates_element(
    user: &UserContext,
    kind: Kind,
    created: Seq<char>,
    comment: Seq<char>,
    num_days: nat,
)
    ensures
        match (
            element(user, kind, Mode::Add, created, comment, num_days),
            element(user, kind, Mode::Subtract, created, comment, num_days),
        ) {
            (Ok(added), Ok(taken)) => taken.amount == -added.amount,
            (Err(claimed), Err(refused)) => claimed == refused,
            _ => false,
        },
{
    if let Some(unit) = rate(kind, user.country, user.destination) {
        let amount: int = (unit * num_days) as int;
        assert(amount * Mode::Subtract.sign() == -(amount * Mode::Add.sign()));
    }
}

/// A single day, a range and the weekdays expand to one expense, a list of
/// days to one expense for each of its days.
pub proof fn lemma_expansion_count(
    ctx: &Context,
    period: TimePeriodView,
    kind: Kind,
    mode: Mode,
    monday: int,
)
    ensures
        expansion(ctx, period, kind, mode, monday) matches Ok(elements) ==> elements.len() == (
        match period {
            TimePeriodView::Days(days) => days.len(),
            _ => 1,
        }),
{
    if let TimePeriodView::Days(days) = period {
        lemma_day_elements_one_each(ctx, kind, mode, monday, days);
    }
}

/// Each expense of a list of days is for one day: its amount is the daily
/// rate, with the sign of the mode, and there is one expense for each day.
pub proof fn lemma_day_elements_one_each(
    ctx: &Context,
    kind: Kind,
    mode: Mode,
    monday: int,
    days: Seq<Weekday>,
)
    ensures
        day_elements(ctx, kind, mode, monday, days) matches Ok(elements) ==> {
            &&& elements.len() == days.len()
            &&& forall|i: int|
                0 <= i < days.len() ==> Ok::<ElementView, ErrorView>(#[trigger] elements[i])
                    == single_day_element(ctx, kind, mode, monday + days[i].ordinal())
        },
    decreases days.len(),
{
    if days.len() > 0 {
        lemma_day_elements_one_each(ctx, kind, mode, monday, days.drop_last());
    }
}

/// An error among the first of `days` is the error of all of them.
pub proof fn lemma_day_elements_error(
    ctx: &Context,
    kind: Kind,
    mode: Mode,
    monday: int,
    days: Seq<Weekday>,
    n: int,
)
    requires
        0 <= n <= days.len(),
        day_elements(ctx, kind, mode, monday, days.take(n)) is Err,
    ensures
        day_elements(ctx, kind, mode, monday, days) == day_elements(
            ctx,
            kind,
            mode,
            monday,
            days.take(n),
        ),
    decreases days.len() - n,
{
    if n < days.len() {
        assert(days.take(n + 1).drop_last() == days.take(n));
        lemma_day_elements_error(ctx, kind, mode, monday, days, n + 1);
    } else {
        assert(days.take(n) == days);
    }
}

impl Kind {
    /// The words for the kind in a merchant line. Arrival and departure share
    /// theirs, and so do lunch and dinner.
    pub open spec fn label(self) -> Seq<char> {
        match self {
            Kind::FullDay => "Full Day"@,
            Kind::Breakfast => "Breakfast"@,
            Kind::Arrival | Kind::Departure => "Arrival/Departure Day"@,
            Kind::Daytrip => "Day Trip > 8 Hours"@,
            Kind::Lunch | Kind::Dinner => "Lunch/Dinner"@,
        }
    }

    /// The kind that `s` names, in any mix of upper and lower case.
    pub open spec fn named(s: Seq<char>) -> Option<Kind> {
        let t = lowercase(s);
        if t == "fullday"@ {
            Some(Kind::FullDay)
        } else if t == "breakfast"@ {
            Some(Kind::Breakfast)
        } else if t == "arrival"@ {
            Some(Kind::Arrival)
        } else if t == "departure"@ {
            Some(Kind::Departure)
        } else if t == "daytrip"@ {
            Some(Kind::Daytrip)
        } else if t == "lunch"@ {
            Some(Kind::Lunch)
        } else if t == "dinner"@ {
            Some(Kind::Dinner)
        } else {
            None
        }
    }

    /// Reads a kind from one of the words `fullday`, `breakfast`, `arrival`,
    /// `departure`, `daytrip`, `lunch` and `dinner`, whatever the case of the
    /// letters.
    pub fn parse(s: &str) -> (kind: Result<Kind, Error>)
        ensures
            Kind::named(s@) matches Some(k) ==> kind == Ok::<Kind, Error>(k),
            Kind::named(s@) is None ==> (kind matches Err(e) && e@ == (ErrorView::InvalidKind {
                input: s@,
            })),
    {
        let chars = to_chars(s);
        let n = chars.len();
        assert(chars@.subrange(0, n as int) == s@);
        if matches_lowercase(&chars, 0, n, "fullday") {
            Ok(Kind::FullDay)
        } else if matches_lowercase(&chars, 0, n, "breakfast") {
            Ok(Kind::Breakfast)
        } else if matches_lowercase(&chars, 0, n, "arrival") {
            Ok(Kind::Arrival)
        } else if matches_lowercase(&chars, 0, n, "departure") {
            Ok(Kind::Departure)
        } else if matches_lowercase(&chars, 0, n, "daytrip") {
            Ok(Kind::Daytrip)
        } else if matches_lowercase(&chars, 0, n, "lunch") {
            Ok(Kind::Lunch)
        } else if matches_lowercase(&chars, 0, n, "dinner") {
            Ok(Kind::Dinner)
        } else {
            Err(Error::InvalidKind { input: String::from_str(s) })
        }
    }

    /// What one day of this kind pays, in hundredths of the country's
    /// currency, for a journey within `country` or to `destination`. Fails
    /// where the rate table has no entry; no other amount takes its place.
    pub fn amount(&self, country: &Country, destination: Option<Destination>) -> (amount: Result<
        u32,
        Error,
    >)
        ensures
            match rate_or_error(*self, *country, destination) {
                Ok(unit) => amount == Ok::<u32, Error>(unit as u32) && unit <= MAX_RATE,
                Err(error) => amount matches Err(e) && e@ == error,
            },
    {
        let unsupported = Error::UnsupportedRateCombination {
            kind: *self,
            country: *country,
            destination,
        };
        match (country, destination) {
            (Country::Germany, Some(Destination::IndiaOther)) => match self {
                Kind::FullDay => Ok(3200),
                Kind::Daytrip | Kind::Arrival | Kind::Departure => Ok(2100),
                Kind::Breakfast | Kind::Lunch | Kind::Dinner => Err(unsupported),
            },
            (Country::Germany, None) => match self {
                Kind::FullDay => Ok(2400),
                Kind::Daytrip | Kind::Arrival | Kind::Departure => Ok(1200),
                Kind::Breakfast => Ok(480),
                Kind::Lunch | Kind::Dinner => Ok(960),
            },
        }
    }

    /// The words for the kind in a merchant line.
    pub fn to_string(&self) -> (label: String)
        ensures
            label@ == self.label(),
    {
        String::from_str(
            match self {
                Kind::FullDay => "Full Day",
                Kind::Breakfast => "Breakfast",
                Kind::Arrival | Kind::Departure => "Arrival/Departure Day",
                Kind::Daytrip => "Day Trip > 8 Hours",
                Kind::Lunch | Kind::Dinner => "Lunch/Dinner",
            },
        )
    }
}

impl std::str::FromStr for Kind {
    type Err = Error;

    /// Reads a kind as [`Kind::parse`] does.
    fn from_str(s: &str) -> (kind: Result<Kind, Error>)
        ensures
            Kind::named(s@) matches Some(k) ==> kind == Ok::<Kind, Error>(k),
            Kind::named(s@) is None ==> (kind matches Err(e) && e@ == (ErrorView::InvalidKind {
                input: s@,
            })),
    {
        Kind::parse(s)
    }
}

/// The merchant line of an expense.
fn to_merchant(num_days: u32, ctx: &Context, kind: Kind, mode: Mode, unit: u32) -> (text: String)
    requires
        unit <= MAX_RATE,
    ensures
        text@ == merchant_text(num_days as nat, &ctx.user, kind, mode, unit as nat),
{
    let mut text = String::new();
    push_decimal(&mut text, num_days as u64);
    text.append(" * ");
    match ctx.user.destination {
        Some(place) => {
            text.append(place.to_string().as_str());
            text.append(" for ");
        },
        None => {},
    }
    text.append(ctx.user.country.to_string().as_str());
    text.append(" ");
    text.append(kind.to_string().as_str());
    text.append(" @ ");
    text.append(ctx.user.country.currency().symbol());
    push_money(&mut text, mode.apply(unit as i32));
    assert(text@ =~= merchant_text(num_days as nat, &ctx.user, kind, mode, unit as nat));
    text
}

/// The expense for `num_days` days.
fn to_element(
    created: String,
    comment: String,
    num_days: u32,
    ctx: &Context,
    kind: Kind,
    mode: Mode,
) -> (made: Result<TransactionListElement, Error>)
    requires
        num_days <= 7,
    ensures
        element_outcome(made) == element(
            &ctx.user,
            kind,
            mode,
            created@,
            comment@,
            num_days as nat,
        ),
{
    let unit = match kind.amount(&ctx.user.country, ctx.user.destination) {
        Ok(unit) => unit,
        Err(error) => {
            return Err(error);
        },
    };
    assert(unit * num_days <= MAX_RATE * 7) by (nonlinear_arith)
        requires
            unit <= MAX_RATE,
            num_days <= 7,
    ;
    let mut tag = ctx.user.project.clone();
    tag.append(":");
    tag.append(ctx.user.tags.travel.name.as_str());
    Ok(
        TransactionListElement {
            created,
            currency: ctx.user.country.currency().to_string(),
            merchant: to_merchant(num_days, ctx, kind, mode, unit),
            amount: mode.apply((unit * num_days) as i32),
            category: ctx.user.categories.per_diems.name.clone(),
            tag,
            billable: ctx.user.tags.travel.billable,
            reimbursable: true,
            comment,
        },
    )
}

/// The words for the days from `from` to `to`.
fn to_comment_from_range(from: &Date, to: &Date) -> (text: String)
    ensures
        text@ == iso_date_text(from@) + " to "@ + iso_date_text(to@),
{
    let mut text = from.to_date_string();
    text.append(" to ");
    text.append(to.to_date_string().as_str());
    text
}

/// The one expense for all the days from `from` to `to`.
fn to_element_from_range(from: &Date, to: &Date, ctx: &Context, kind: Kind, mode: Mode) -> (made:
    Result<TransactionListElement, Error>)
    requires
        from@ <= to@ <= from@ + 6,
    ensures
        element_outcome(made) == range_element(ctx, kind, mode, from@, to@),
{
    let num_days = to.days_since(from) + 1;
    let mut comment = to_comment_from_range(from, to);
    match &ctx.comment {
        Some(custom) => {
            comment.append(": ");
            comment.append(custom.as_str());
        },
        None => {},
    }
    assert(comment@ =~= range_comment(ctx, from@, to@));
    to_element(from.to_date_string(), comment, num_days as u32, ctx, kind, mode)
}

/// The expense for the one day `day`.
fn to_element_single_day(day: &Date, ctx: &Context, kind: Kind, mode: Mode) -> (made: Result<
    TransactionListElement,
    Error,
>)
    ensures
        element_outcome(made) == single_day_element(ctx, kind, mode, day@),
{
    let comment = match &ctx.comment {
        Some(custom) => custom.clone(),
        None => String::new(),
    };
    to_element(day.to_date_string(), comment, 1, ctx, kind, mode)
}

/// A list that holds the one expense of `made`.
fn one_element(made: Result<TransactionListElement, Error>) -> (list: Result<
    Vec<TransactionListElement>,
    Error,
>)
    ensures
        list_outcome(list) == alone(element_outcome(made)),
{
    match made {
        Ok(element) => {
            let mut ts: Vec<TransactionListElement> = Vec::new();
            ts.push(element);
            assert(element_views(ts@) =~= seq![element@]);
            Ok(ts)
        },
        Err(error) => Err(error),
    }
}

/// The list of the one expense for the days from `from` to `to` of the week
/// that starts on `monday`.
fn to_week_range(
    monday: &Date,
    from: Weekday,
    to: Weekday,
    ctx: &Context,
    kind: Kind,
    mode: Mode,
) -> (list: Result<Vec<TransactionListElement>, Error>)
    requires
        from.ordinal() <= to.ordinal(),
    ensures
        list_outcome(list) == alone(week_range_element(ctx, kind, mode, monday@, from, to)),
{
    let first = match from.to_date_from(monday) {
        Ok(date) => date,
        Err(error) => {
            return Err(error);
        },
    };
    let last = match to.to_date_from(monday) {
        Ok(date) => date,
        Err(error) => {
            return Err(error);
        },
    };
    one_element(to_element_from_range(&first, &last, ctx, kind, mode))
}

impl TimePeriod {
    /// The expenses that the selection stands for in the week that starts on
    /// `monday`, in the order of the days. A single day, a range and
    /// `Weekdays` give one expense each; a list gives one for each of its
    /// days. An expense for several days is dated on the first of them, and
    /// its amount is the daily rate times the number of days; `mode` sets the
    /// sign. Fails where the rate table has no entry, or a date is past the
    /// last one that can be represented.
    pub fn transactions_in_week(&self, monday: &Date, ctx: &Context, kind: Kind, mode: Mode) -> (made:
        Result<Vec<TransactionListElement>, Error>)
        requires
            self@.wf(),
        ensures
            list_outcome(made) == expansion(ctx, self@, kind, mode, monday@),
    {
        match self {
            TimePeriod::Weekdays => to_week_range(
                monday,
                Weekday::Monday,
                Weekday::Friday,
                ctx,
                kind,
                mode,
            ),
            TimePeriod::SingleDay(day) => {
                let date = match day.to_date_from(monday) {
                    Ok(date) => date,
                    Err(error) => {
                        return Err(error);
                    },
                };
                one_element(to_element_single_day(&date, ctx, kind, mode))
            },
            TimePeriod::DayRange { from, to } => to_week_range(monday, *from, *to, ctx, kind, mode),
            TimePeriod::Days(days) => {
                let mut ts: Vec<TransactionListElement> = Vec::new();
                let mut i: usize = 0;
                assert(days@.take(0).len() == 0);
                assert(element_views(ts@) =~= Seq::empty());
                while i < days.len()
                    invariant
                        self@ == TimePeriodView::Days(days@),
                        i <= days.len(),
                        day_elements(ctx, kind, mode, monday@, days@.take(i as int)) == Ok::<
                            Seq<ElementView>,
                            ErrorView,
                        >(element_views(ts@)),
                    decreases days.len() - i,
                {
                    let ghost before = element_views(ts@);
                    let ghost upto = days@.take(i + 1);
                    assert(upto.drop_last() == days@.take(i as int));
                    assert(upto.last() == days@[i as int]);
                    let element = match days[i].to_date_from(monday) {
                        Ok(day) => to_element_single_day(&day, ctx, kind, mode),
                        Err(error) => Err(error),
                    };
                    assert(element_outcome(element) == weekday_element(
                        ctx,
                        kind,
                        mode,
                        monday@,
                        days@[i as int],
                    ));
                    match element {
                        Ok(element) => {
                            ts.push(element);
                            assert(element_views(ts@) =~= before.push(element@));
                        },
                        Err(error) => {
                            proof {
                                lemma_day_elements_error(ctx, kind, mode, monday@, days@, i + 1);
                            }
                            return Err(error);
                        },
                    }
                    i += 1;
                }
                assert(days@.take(i as int) == days@);
                Ok(ts)
            },
        }
    }

    /// The expenses that the selection stands for in the week of the
    /// context's reference date, or in the current week where the context
    /// holds none; see [`TimePeriod::transactions_in_week`].
    pub fn into_transactions(self, ctx: &Context, kind: Kind, mode: Mode) -> (made: Result<
        Vec<TransactionListElement>,
        Error,
    >)
        requires
            self@.wf(),
        ensures
            ctx.reference_date matches Some(date) ==> list_outcome(made) == transactions(
                ctx,
                self@,
                kind,
                mode,
                date@,
            ),
            ctx.reference_date is None ==> exists|today: int|
                is_day_number(today) && list_outcome(made) == #[trigger] transactions(
                    ctx,
                    self@,
                    kind,
                    mode,
                    today,
                ),
    {
        let monday = ctx.monday_of_reference_date();
        let ghost period = self@;
        let made = match monday {
            Ok(monday) => self.transactions_in_week(&monday, ctx, kind, mode),
            Err(error) => Err(error),
        };
        proof {
            if ctx.reference_date is None {
                let today = choose|today: int|
                    is_day_number(today) && date_outcome(monday) == checked_day(
                        #[trigger] monday_of(today),
                    );
                assert(list_outcome(made) == transactions(ctx, period, kind, mode, today));
            }
        }
        made
    }
}

impl TransactionList {
    /// The expense report for the per diems of `kind` on the days of
    /// `period`: a list of the type `expenses`, in the name of the context's
    /// user, with the expenses of [`TimePeriod::into_transactions`].
    pub fn from_per_diem(ctx: Context, period: TimePeriod, kind: Kind, mode: Mode) -> (report:
        Result<TransactionList, Error>)
        requires
            period@.wf(),
        ensures
            ctx.reference_date matches Some(date) ==> report_outcome(report) == per_diem_report(
                &ctx,
                period@,
                kind,
                mode,
                date@,
            ),
            ctx.reference_date is None ==> exists|today: int|
                is_day_number(today) && report_outcome(report) == #[trigger] per_diem_report(
                    &ctx,
                    period@,
                    kind,
                    mode,
                    today,
                ),
    {
        let ghost selection = period@;
        let made = period.into_transactions(&ctx, kind, mode);
        let report = match made {
            Ok(transaction_list) => Ok(
                TransactionList {
                    transaction_list_type: String::from_str("expenses"),
                    employee_email: ctx.user.email.clone(),
                    transaction_list,
                },
            ),
            Err(error) => Err(error),
        };
        proof {
            if ctx.reference_date is None {
                let today = choose|today: int|
                    is_day_number(today) && list_outcome(made) == #[trigger] transactions(
                        &ctx,
                        selection,
                        kind,
                        mode,
                        today,
                    );
                assert(report_outcome(report) == per_diem_report(
                    &ctx,
                    selection,
                    kind,
                    mode,
                    today,
                ));
            }
        }
        report
    }
}

} // verus!
