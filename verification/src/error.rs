//! What can go wrong, and how it is reported.

use crate::context::{Country, Destination};
use crate::json::Json;
use crate::perdiem::Kind;
use crate::text::{decimal, push_decimal};
use crate::weekday::Weekday;
use vstd::prelude::*;
use vstd::string::StringExecFns;

verus! {

/// What is wrong with the shape of a time period.
#[derive(Debug, Clone, Copy, PartialEq, Eq, Structural)]
pub enum SyntaxProblem {
    /// A list of days that names no day at all.
    NoWeekday,
    /// Anything but one or two parts around `-`.
    TooManyDays,
}

/// The failures of this library. Those that refuse an input carry it as it
/// was given.
#[derive(Debug, PartialEq, Eq)]
pub enum Error {
    /// The text names no day of the week.
    InvalidWeekday { input: String },
    /// The text is no time period.
    InvalidTimePeriodSyntax { input: String, problem: SyntaxProblem },
    /// A range of days whose first day comes after its last.
    InvalidDayOrder { from: Weekday, to: Weekday },
    /// The text names no kind of per diem.
    InvalidKind { input: String },
    /// The text names no country that is known here.
    InvalidCountry { input: String },
    /// The text is no date.
    InvalidDate { input: String },
    /// The rate table has no entry for this kind, country and destination.
    UnsupportedRateCombination { kind: Kind, country: Country, destination: Option<Destination> },
    /// A date beyond the first or last one that can be represented.
    DateArithmeticOverflow,
    /// The service answered with a status that is no success; `response` is
    /// what it sent.
    RequestFailed { status: u16, response: Json },
}

/// An [`Error`] with its texts as sequences of characters.
pub ghost enum ErrorView {
    InvalidWeekday { input: Seq<char> },
    InvalidTimePeriodSyntax { input: Seq<char>, problem: SyntaxProblem },
    InvalidDayOrder { from: Weekday, to: Weekday },
    InvalidKind { input: Seq<char> },
    InvalidCountry { input: Seq<char> },
    InvalidDate { input: Seq<char> },
    UnsupportedRateCombination { kind: Kind, country: Country, destination: Option<Destination> },
    DateArithmeticOverflow,
    RequestFailed { status: u16, response: Json },
}

impl View for Error {
    type V = ErrorView;

    open spec fn view(&self) -> ErrorView {
        match *self {
            Error::InvalidWeekday { input } => ErrorView::InvalidWeekday { input: input@ },
            Error::InvalidTimePeriodSyntax { input, problem } => ErrorView::InvalidTimePeriodSyntax {
                input: input@,
                problem,
            },
            Error::InvalidDayOrder { from, to } => ErrorView::InvalidDayOrder { from, to },
            Error::InvalidKind { input } => ErrorView::InvalidKind { input: input@ },
            Error::InvalidCountry { input } => ErrorView::InvalidCountry { input: input@ },
            Error::InvalidDate { input } => ErrorView::InvalidDate { input: input@ },
            Error::UnsupportedRateCombination {
                kind,
                country,
                destination,
            } => ErrorView::UnsupportedRateCombination { kind, country, destination },
            Error::DateArithmeticOverflow => ErrorView::DateArithmeticOverflow,
            Error::RequestFailed { status, response } => ErrorView::RequestFailed {
                status,
                response,
            },
        }
    }
}

impl ErrorView {
    /// The sentence that reports the error.
    pub open spec fn message(self) -> Seq<char> {
        match self {
            ErrorView::InvalidWeekday { input } => "Invalid weekday specification: '"@ + input
                + "'"@,
            ErrorView::InvalidTimePeriodSyntax {
                input,
                problem: SyntaxProblem::NoWeekday,
            } => "Didn't see a single weekday in '"@ + input + "'"@,
            ErrorView::InvalidTimePeriodSyntax {
                input,
                problem: SyntaxProblem::TooManyDays,
            } => "More than two days separated by '-' are not allowed in '"@ + input + "'"@,
            ErrorView::InvalidDayOrder { from, to } => "Day '"@ + from.name()
                + "' must be temporally before '"@ + to.name() + "', but came after. Write '"@
                + to.name() + "-"@ + from.name() + "' instead."@,
            ErrorView::InvalidKind { input } => "Invalid per diem kind specification: '"@ + input
                + "'"@,
            ErrorView::InvalidCountry { input } => "Invalid country identifier: '"@ + input
                + "'. Country is not implemented."@,
            ErrorView::InvalidDate { input } => "Could not parse date string '"@ + input + "'"@,
            ErrorView::UnsupportedRateCombination { kind, country, destination } => 
                "The per-diem of kind '"@ + kind.label()
                + "' cannot yield an amount - please try another one."@,
            ErrorView::DateArithmeticOverflow => "Failed to compute a date in the reference week."@,
            ErrorView::RequestFailed { status, response } => "Request failed with http status "@
                + decimal(status as nat),
        }
    }
}

impl Error {
    /// The sentence that reports the error, with the offending input in it
    /// as it was given.
    pub fn message(&self) -> (text: String)
        ensures
            text@ == self@.message(),
    {
        match self {
            Error::InvalidWeekday { input } => {
                let mut text = String::from_str("Invalid weekday specification: '");
                text.append(input.as_str());
                text.append("'");
                text
            },
            Error::InvalidTimePeriodSyntax { input, problem } => {
                let mut text = match problem {
                    SyntaxProblem::NoWeekday => String::from_str("Didn't see a single weekday in '"),
                    SyntaxProblem::TooManyDays => String::from_str(
                        "More than two days separated by '-' are not allowed in '",
                    ),
                };
                text.append(input.as_str());
                text.append("'");
                text
            },
            Error::InvalidDayOrder { from, to } => {
                let from_name = from.to_string();
                let to_name = to.to_string();
                let mut text = String::from_str("Day '");
                text.append(from_name.as_str());
                text.append("' must be temporally before '");
                text.append(to_name.as_str());
                text.append("', but came after. Write '");
                text.append(to_name.as_str());
                text.append("-");
                text.append(from_name.as_str());
                text.append("' instead.");
                text
            },
            Error::InvalidKind { input } => {
                let mut text = String::from_str("Invalid per diem kind specification: '");
                text.append(input.as_str());
                text.append("'");
                text
            },
            Error::InvalidCountry { input } => {
                let mut text = String::from_str("Invalid country identifier: '");
                text.append(input.as_str());
                text.append("'. Country is not implemented.");
                text
            },
            Error::InvalidDate { input } => {
                let mut text = String::from_str("Could not parse date string '");
                text.append(input.as_str());
                text.append("'");
                text
            },
            Error::UnsupportedRateCombination { kind, country: _, destination: _ } => {
                let mut text = String::from_str("The per-diem of kind '");
                text.append(kind.to_string().as_str());
                text.append("' cannot yield an amount - please try another one.");
                text
            },
            Error::DateArithmeticOverflow => String::from_str(
                "Failed to compute a date in the reference week.",
            ),
            Error::RequestFailed { status, response: _ } => {
                let mut text = String::from_str("Request failed with http status ");
                push_decimal(&mut text, *status as u64);
                text
            },
        }
    }
}

} // verus!
