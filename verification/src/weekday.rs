//! The days of the week.

use crate::date::{checked_day, date_outcome, Date};
use crate::error::{Error, ErrorView};
use crate::text::{lower, lowercase, matches_lowercase, to_chars};
use vstd::prelude::*;
use vstd::string::StringExecFns;

verus! {

/// A day of the week. The days are ordered from Monday to Sunday.
#[derive(Debug, PartialEq, Eq, Clone, Copy, Structural)]
pub enum Weekday {
    Monday,
    Tuesday,
    Wednesday,
    Thursday,
    Friday,
    Saturday,
    Sunday,
}

impl Weekday {
    /// Position in the week: 0 for Monday, up to 6 for Sunday.
    pub open spec fn ordinal(self) -> int {
        match self {
            Weekday::Monday => 0,
            Weekday::Tuesday => 1,
            Weekday::Wednesday => 2,
            Weekday::Thursday => 3,
            Weekday::Friday => 4,
            Weekday::Saturday => 5,
            Weekday::Sunday => 6,
        }
    }

    /// The day at position `n` of the week; Sunday for any `n` above 5.
    pub open spec fn at(n: int) -> Weekday {
        if n <= 0 {
            Weekday::Monday
        } else if n == 1 {
            Weekday::Tuesday
        } else if n == 2 {
            Weekday::Wednesday
        } else if n == 3 {
            Weekday::Thursday
        } else if n == 4 {
            Weekday::Friday
        } else if n == 5 {
            Weekday::Saturday
        } else {
            Weekday::Sunday
        }
    }

    /// The English name, capitalised.
    pub open spec fn name(self) -> Seq<char> {
        match self {
            Weekday::Monday => "Monday"@,
            Weekday::Tuesday => "Tuesday"@,
            Weekday::Wednesday => "Wednesday"@,
            Weekday::Thursday => "Thursday"@,
            Weekday::Friday => "Friday"@,
            Weekday::Saturday => "Saturday"@,
            Weekday::Sunday => "Sunday"@,
        }
    }

    /// The day that `s` names: its English name or the first three letters of
    /// it, in any mix of upper and lower case.
    pub open spec fn named(s: Seq<char>) -> Option<Weekday> {
        let t = lowercase(s);
        if t == "mon"@ || t == "monday"@ {
            Some(Weekday::Monday)
        } else if t == "tue"@ || t == "tuesday"@ {
            Some(Weekday::Tuesday)
        } else if t == "wed"@ || t == "wednesday"@ {
            Some(Weekday::Wednesday)
        } else if t == "thu"@ || t == "thursday"@ {
            Some(Weekday::Thursday)
        } else if t == "fri"@ || t == "friday"@ {
            Some(Weekday::Friday)
        } else if t == "sat"@ || t == "saturday"@ {
            Some(Weekday::Saturday)
        } else if t == "sun"@ || t == "sunday"@ {
            Some(Weekday::Sunday)
        } else {
            None
        }
    }

    /// Position in the week, counted from Monday as 0.
    pub fn numerical(&self) -> (n: u8)
        ensures
            n == self.ordinal(),
    {
        match self {
            Weekday::Monday => 0,
            Weekday::Tuesday => 1,
            Weekday::Wednesday => 2,
            Weekday::Thursday => 3,
            Weekday::Friday => 4,
            Weekday::Saturday => 5,
            Weekday::Sunday => 6,
        }
    }

    /// The day at position `n` of the week; Sunday for any `n` above 5.
    pub fn from_ordinal(n: u8) -> (day: Weekday)
        ensures
            day == Weekday::at(n as int),
            n <= 6 ==> day.ordinal() == n,
    {
        if n == 0 {
            Weekday::Monday
        } else if n == 1 {
            Weekday::Tuesday
        } else if n == 2 {
            Weekday::Wednesday
        } else if n == 3 {
            Weekday::Thursday
        } else if n == 4 {
            Weekday::Friday
        } else if n == 5 {
            Weekday::Saturday
        } else {
            Weekday::Sunday
        }
    }

    /// Whether this day comes later in the week than `other`.
    pub fn is_after(&self, other: &Weekday) -> (after: bool)
        ensures
            after == (self.ordinal() > other.ordinal()),
    {
        self.numerical() > other.numerical()
    }

    /// The date of this day in the week that starts on `reference`: as many
    /// days after `reference` as this day is after Monday. Fails only where
    /// that date is past the last one that can be represented.
    pub fn to_date_from(&self, reference: &Date) -> (date: Result<Date, Error>)
        ensures
            date_outcome(date) == checked_day(reference@ + self.ordinal()),
    {
        reference.checked_add_days(self.numerical() as i64)
    }

    /// The day that `chars[lo..hi]` names, if any.
    pub fn parse_range(chars: &Vec<char>, lo: usize, hi: usize) -> (day: Option<Weekday>)
        requires
            lo <= hi <= chars.len(),
        ensures
            day == Weekday::named(chars@.subrange(lo as int, hi as int)),
    {
        if matches_lowercase(chars, lo, hi, "mon") || matches_lowercase(chars, lo, hi, "monday") {
            Some(Weekday::Monday)
        } else if matches_lowercase(chars, lo, hi, "tue") || matches_lowercase(
            chars,
            lo,
            hi,
            "tuesday",
        ) {
            Some(Weekday::Tuesday)
        } else if matches_lowercase(chars, lo, hi, "wed") || matches_lowercase(
            chars,
            lo,
            hi,
            "wednesday",
        ) {
            Some(Weekday::Wednesday)
        } else if matches_lowercase(chars, lo, hi, "thu") || matches_lowercase(
            chars,
            lo,
            hi,
            "thursday",
        ) {
            Some(Weekday::Thursday)
        } else if matches_lowercase(chars, lo, hi, "fri") || matches_lowercase(
            chars,
            lo,
            hi,
            "friday",
        ) {
            Some(Weekday::Friday)
        } else if matches_lowercase(chars, lo, hi, "sat") || matches_lowercase(
            chars,
            lo,
            hi,
            "saturday",
        ) {
            Some(Weekday::Saturday)
        } else if matches_lowercase(chars, lo, hi, "sun") || matches_lowercase(
            chars,
            lo,
            hi,
            "sunday",
        ) {
            Some(Weekday::Sunday)
        } else {
            None
        }
    }

    /// Reads a day of the week from its name or three-letter abbreviation,
    /// whatever the case of the letters. Anything else, text with surrounding
    /// whitespace included, is refused with the input in the error.
    pub fn parse(s: &str) -> (day: Result<Weekday, Error>)
        ensures
            Weekday::named(s@) matches Some(d) ==> day == Ok::<Weekday, Error>(d),
            Weekday::named(s@) is None ==> (day matches Err(e) && e@ == (ErrorView::InvalidWeekday {
                input: s@,
            })),
    {
        let chars = to_chars(s);
        assert(chars@.subrange(0, chars.len() as int) == s@);
        match Weekday::parse_range(&chars, 0, chars.len()) {
            Some(day) => Ok(day),
            None => Err(Error::InvalidWeekday { input: String::from_str(s) }),
        }
    }

    /// The English name, capitalised.
    pub fn to_string(&self) -> (name: String)
        ensures
            name@ == self.name(),
    {
        String::from_str(
            match self {
                Weekday::Monday => "Monday",
                Weekday::Tuesday => "Tuesday",
                Weekday::Wednesday => "Wednesday",
                Weekday::Thursday => "Thursday",
                Weekday::Friday => "Friday",
                Weekday::Saturday => "Saturday",
                Weekday::Sunday => "Sunday",
            },
        )
    }
}

/// Whether `c` is one of the letters `a` to `z` and `A` to `Z`.
pub open spec fn is_letter(c: char) -> bool {
    ('a' <= c <= 'z') || ('A' <= c <= 'Z')
}

/// The names of the days and their abbreviations, letter by letter.
proof fn lemma_spellings()
    ensures
        "mon"@ == seq!['m', 'o', 'n'],
        "tue"@ == seq!['t', 'u', 'e'],
        "wed"@ == seq!['w', 'e', 'd'],
        "thu"@ == seq!['t', 'h', 'u'],
        "fri"@ == seq!['f', 'r', 'i'],
        "sat"@ == seq!['s', 'a', 't'],
        "sun"@ == seq!['s', 'u', 'n'],
        "monday"@ == seq!['m', 'o', 'n', 'd', 'a', 'y'],
        "tuesday"@ == seq!['t', 'u', 'e', 's', 'd', 'a', 'y'],
        "wednesday"@ == seq!['w', 'e', 'd', 'n', 'e', 's', 'd', 'a', 'y'],
        "thursday"@ == seq!['t', 'h', 'u', 'r', 's', 'd', 'a', 'y'],
        "friday"@ == seq!['f', 'r', 'i', 'd', 'a', 'y'],
        "saturday"@ == seq!['s', 'a', 't', 'u', 'r', 'd', 'a', 'y'],
        "sunday"@ == seq!['s', 'u', 'n', 'd', 'a', 'y'],
        "Monday"@ == seq!['M', 'o', 'n', 'd', 'a', 'y'],
        "Tuesday"@ == seq!['T', 'u', 'e', 's', 'd', 'a', 'y'],
        "Wednesday"@ == seq!['W', 'e', 'd', 'n', 'e', 's', 'd', 'a', 'y'],
        "Thursday"@ == seq!['T', 'h', 'u', 'r', 's', 'd', 'a', 'y'],
        "Friday"@ == seq!['F', 'r', 'i', 'd', 'a', 'y'],
        "Saturday"@ == seq!['S', 'a', 't', 'u', 'r', 'd', 'a', 'y'],
        "Sunday"@ == seq!['S', 'u', 'n', 'd', 'a', 'y'],
{
    reveal_strlit("mon");
    reveal_strlit("tue");
    reveal_strlit("wed");
    reveal_strlit("thu");
    reveal_strlit("fri");
    reveal_strlit("sat");
    reveal_strlit("sun");
    reveal_strlit("monday");
    reveal_strlit("tuesday");
    reveal_strlit("wednesday");
    reveal_strlit("thursday");
    reveal_strlit("friday");
    reveal_strlit("saturday");
    reveal_strlit("sunday");
    reveal_strlit("Monday");
    reveal_strlit("Tuesday");
    reveal_strlit("Wednesday");
    reveal_strlit("Thursday");
    reveal_strlit("Friday");
    reveal_strlit("Saturday");
    reveal_strlit("Sunday");
    assert("mon"@ =~= seq!['m', 'o', 'n']);
    assert("tue"@ =~= seq!['t', 'u', 'e']);
    assert("wed"@ =~= seq!['w', 'e', 'd']);
    assert("thu"@ =~= seq!['t', 'h', 'u']);
    assert("fri"@ =~= seq!['f', 'r', 'i']);
    assert("sat"@ =~= seq!['s', 'a', 't']);
    assert("sun"@ =~= seq!['s', 'u', 'n']);
    assert("monday"@ =~= seq!['m', 'o', 'n', 'd', 'a', 'y']);
    assert("tuesday"@ =~= seq!['t', 'u', 'e', 's', 'd', 'a', 'y']);
    assert("wednesday"@ =~= seq!['w', 'e', 'd', 'n', 'e', 's', 'd', 'a', 'y']);
    assert("thursday"@ =~= seq!['t', 'h', 'u', 'r', 's', 'd', 'a', 'y']);
    assert("friday"@ =~= seq!['f', 'r', 'i', 'd', 'a', 'y']);
    assert("saturday"@ =~= seq!['s', 'a', 't', 'u', 'r', 'd', 'a', 'y']);
    assert("sunday"@ =~= seq!['s', 'u', 'n', 'd', 'a', 'y']);
    assert("Monday"@ =~= seq!['M', 'o', 'n', 'd', 'a', 'y']);
    assert("Tuesday"@ =~= seq!['T', 'u', 'e', 's', 'd', 'a', 'y']);
    assert("Wednesday"@ =~= seq!['W', 'e', 'd', 'n', 'e', 's', 'd', 'a', 'y']);
    assert("Thursday"@ =~= seq!['T', 'h', 'u', 'r', 's', 'd', 'a', 'y']);
    assert("Friday"@ =~= seq!['F', 'r', 'i', 'd', 'a', 'y']);
    assert("Saturday"@ =~= seq!['S', 'a', 't', 'u', 'r', 'd', 'a', 'y']);
    assert("Sunday"@ =~= seq!['S', 'u', 'n', 'd', 'a', 'y']);
}

/// The lower-case forms of the names of the days, and of their first three
/// letters.
proof fn lemma_lower_names()
    ensures
        forall|day: Weekday|
            #![trigger day.name()]
            {
                &&& lowercase(day.name()) == match day {
                    Weekday::Monday => "monday"@,
                    Weekday::Tuesday => "tuesday"@,
                    Weekday::Wednesday => "wednesday"@,
                    Weekday::Thursday => "thursday"@,
                    Weekday::Friday => "friday"@,
                    Weekday::Saturday => "saturday"@,
                    Weekday::Sunday => "sunday"@,
                }
                &&& lowercase(day.name().take(3)) == match day {
                    Weekday::Monday => "mon"@,
                    Weekday::Tuesday => "tue"@,
                    Weekday::Wednesday => "wed"@,
                    Weekday::Thursday => "thu"@,
                    Weekday::Friday => "fri"@,
                    Weekday::Saturday => "sat"@,
                    Weekday::Sunday => "sun"@,
                }
            },
{
    lemma_spellings();
    assert(lowercase(Weekday::Monday.name()) =~= "monday"@);
    assert(lowercase(Weekday::Tuesday.name()) =~= "tuesday"@);
    assert(lowercase(Weekday::Wednesday.name()) =~= "wednesday"@);
    assert(lowercase(Weekday::Thursday.name()) =~= "thursday"@);
    assert(lowercase(Weekday::Friday.name()) =~= "friday"@);
    assert(lowercase(Weekday::Saturday.name()) =~= "saturday"@);
    assert(lowercase(Weekday::Sunday.name()) =~= "sunday"@);
    assert(lowercase(Weekday::Monday.name().take(3)) =~= "mon"@);
    assert(lowercase(Weekday::Tuesday.name().take(3)) =~= "tue"@);
    assert(lowercase(Weekday::Wednesday.name().take(3)) =~= "wed"@);
    assert(lowercase(Weekday::Thursday.name().take(3)) =~= "thu"@);
    assert(lowercase(Weekday::Friday.name().take(3)) =~= "fri"@);
    assert(lowercase(Weekday::Saturday.name().take(3)) =~= "sat"@);
    assert(lowercase(Weekday::Sunday.name().take(3)) =~= "sun"@);
}

/// A day is read from its name and from the first three letters of its name,
/// whatever the case of each letter.
pub proof fn lemma_named_any_case(day: Weekday, token: Seq<char>)
    requires
        lowercase(token) == lowercase(day.name()) || lowercase(token) == lowercase(
            day.name().take(3),
        ),
    ensures
        Weekday::named(token) == Some(day),
{
    lemma_spellings();
    lemma_lower_names();
    let t = lowercase(token);
    let full = lowercase(day.name());
    let short = lowercase(day.name().take(3));
    assert(t == full || t == short);
    assert(t.len() >= 3);
    assert(t[0] == full[0] || t[0] == short[0]);
    assert(t[1] == full[1] || t[1] == short[1]);
}

/// To write a day out and to read it back gives the same day.
pub proof fn lemma_name_round_trip(day: Weekday)
    ensures
        Weekday::named(day.name()) == Some(day),
{
    lemma_named_any_case(day, day.name());
}

/// What names a day is made of three letters or more, and of nothing else.
pub proof fn lemma_named_letters(token: Seq<char>)
    requires
        Weekday::named(token) is Some,
    ensures
        token.len() >= 3,
        forall|i: int| 0 <= i < token.len() ==> is_letter(#[trigger] token[i]),
{
    lemma_spellings();
    let t = lowercase(token);
    assert(t.len() == token.len());
    assert forall|i: int| 0 <= i < token.len() implies is_letter(#[trigger] token[i]) by {
        assert(t[i] == lower(token[i]));
        assert('a' <= t[i] <= 'z');
    }
}

/// The word `weekdays` names no day.
pub proof fn lemma_no_day_is_weekdays()
    ensures
        Weekday::named("weekdays"@) is None,
{
    lemma_spellings();
    reveal_strlit("weekdays");
    let t = lowercase("weekdays"@);
    assert(t.len() == 8);
    assert(t[0] == 'w');
    assert(t[1] == 'e');
    assert(t[2] == 'e');
}

impl std::str::FromStr for Weekday {
    type Err = Error;

    /// Reads a day as [`Weekday::parse`] does.
    fn from_str(s: &str) -> (day: Result<Weekday, Error>)
        ensures
            Weekday::named(s@) matches Some(d) ==> day == Ok::<Weekday, Error>(d),
            Weekday::named(s@) is None ==> (day matches Err(e) && e@ == (ErrorView::InvalidWeekday {
                input: s@,
            })),
    {
        Weekday::parse(s)
    }
}

} // verus!
