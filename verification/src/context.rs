//! Who files an expense, for which project, and in which week.

use crate::date::{checked_day, date_outcome, is_day_number, monday_of, Date};
use crate::error::{Error, ErrorView};
use crate::json::{same_text, Json};
use crate::text::{matches_exactly, to_chars};
use vstd::prelude::*;
use vstd::string::StringExecFns;

verus! {

/// The countries whose rates are known.
#[derive(Debug, Clone, Copy, PartialEq, Eq, Structural)]
pub enum Country {
    Germany,
}

/// The currencies of the known countries.
#[derive(Debug, Clone, Copy, PartialEq, Eq, Structural)]
pub enum Currency {
    EUR,
}

/// Where a journey leads, for journeys to which other rates than the
/// domestic ones apply.
#[derive(Debug, Clone, Copy, PartialEq, Eq, Structural)]
pub enum Destination {
    IndiaOther,
}

impl Default for Country {
    fn default() -> (country: Country)
        ensures
            country == Country::Germany,
    {
        Country::Germany
    }
}

impl Country {
    /// The English name.
    pub open spec fn name(self) -> Seq<char> {
        match self {
            Country::Germany => "Germany"@,
        }
    }

    /// The country that `s` names.
    pub open spec fn named(s: Seq<char>) -> Option<Country> {
        if s == "germany"@ || s == "Germany"@ {
            Some(Country::Germany)
        } else {
            None
        }
    }

    /// The currency in which the country's rates are paid.
    pub open spec fn spec_currency(&self) -> Currency {
        match self {
            Country::Germany => Currency::EUR,
        }
    }

    /// The currency in which the country's rates are paid.
    #[verifier::when_used_as_spec(spec_currency)]
    pub fn currency(&self) -> (currency: Currency)
        ensures
            currency == self.spec_currency(),
    {
        match self {
            Country::Germany => Currency::EUR,
        }
    }

    /// Reads a country from its name, written `Germany` or `germany`.
    pub fn parse(s: &str) -> (country: Result<Country, Error>)
        ensures
            Country::named(s@) matches Some(c) ==> country == Ok::<Country, Error>(c),
            Country::named(s@) is None ==> (country matches Err(e) && e@ == (
            ErrorView::InvalidCountry { input: s@ })),
    {
        let chars = to_chars(s);
        assert(chars@.subrange(0, chars.len() as int) == s@);
        if matches_exactly(&chars, 0, chars.len(), "germany") || matches_exactly(
            &chars,
            0,
            chars.len(),
            "Germany",
        ) {
            Ok(Country::Germany)
        } else {
            Err(Error::InvalidCountry { input: String::from_str(s) })
        }
    }

    /// The English name.
    pub fn to_string(&self) -> (name: String)
        ensures
            name@ == self.name(),
    {
        match self {
            Country::Germany => String::from_str("Germany"),
        }
    }
}

impl std::str::FromStr for Country {
    type Err = Error;

    /// Reads a country as [`Country::parse`] does.
    fn from_str(s: &str) -> (country: Result<Country, Error>)
        ensures
            Country::named(s@) matches Some(c) ==> country == Ok::<Country, Error>(c),
            Country::named(s@) is None ==> (country matches Err(e) && e@ == (
            ErrorView::InvalidCountry { input: s@ })),
    {
        Country::parse(s)
    }
}

impl Currency {
    /// The three-letter code.
    pub open spec fn code(self) -> Seq<char> {
        match self {
            Currency::EUR => "EUR"@,
        }
    }

    /// The sign that stands before an amount.
    pub open spec fn sign(self) -> Seq<char> {
        match self {
            Currency::EUR => "€"@,
        }
    }

    /// The sign that stands before an amount.
    pub fn symbol(&self) -> (symbol: &'static str)
        ensures
            symbol@ == self.sign(),
    {
        match self {
            Currency::EUR => "€",
        }
    }

    /// The three-letter code.
    pub fn to_string(&self) -> (code: String)
        ensures
            code@ == self.code(),
    {
        match self {
            Currency::EUR => String::from_str("EUR"),
        }
    }
}

impl Destination {
    /// The name as it stands in a merchant line.
    pub open spec fn name(self) -> Seq<char> {
        match self {
            Destination::IndiaOther => "India (other)"@,
        }
    }

    /// The name as it stands in a merchant line.
    pub fn to_string(&self) -> (name: String)
        ensures
            name@ == self.name(),
    {
        match self {
            Destination::IndiaOther => String::from_str("India (other)"),
        }
    }
}

/// A tag that expenses carry, and whether what carries it is billed on.
#[derive(Debug, Clone, PartialEq, Eq)]
pub struct Tag {
    pub name: String,
    pub billable: bool,
}

/// The tags in use.
#[derive(Debug, Clone, PartialEq, Eq)]
pub struct Tags {
    pub travel: Tag,
}

/// A category of expenses.
#[derive(Debug, Clone, PartialEq, Eq)]
pub struct Category {
    pub name: String,
}

/// The categories in use.
#[derive(Debug, Clone, PartialEq, Eq)]
pub struct Categories {
    pub per_diems: Category,
}

/// What stays the same from one expense report of a user to the next.
#[derive(Debug, Clone, PartialEq, Eq)]
pub struct UserContext {
    pub project: String,
    pub email: String,
    pub country: Country,
    pub destination: Option<Destination>,
    pub categories: Categories,
    pub tags: Tags,
}

/// What one expense report is made for: the user's settings, a day of the
/// week in question, and a comment. Without a day, the current week is meant.
#[derive(Debug, Clone, PartialEq, Eq)]
pub struct Context {
    pub user: UserContext,
    pub reference_date: Option<Date>,
    pub comment: Option<String>,
}

impl Default for Tags {
    /// Travel expenses are tagged `Travel` and billed on.
    fn default() -> (tags: Tags)
        ensures
            tags.travel.name@ == "Travel"@,
            tags.travel.billable,
    {
        Tags { travel: Tag { name: String::from_str("Travel"), billable: true } }
    }
}

/// Whether `after` is the transaction `before` filed under `project`: in an
/// object, each member called `tag` holds `project`; all else is as it was.
pub open spec fn is_tagged(before: Json, after: Json, project: Seq<char>) -> bool {
    match before {
        Json::Object(members) => {
            &&& after matches Json::Object(tagged)
            &&& tagged.len() == members.len()
            &&& forall|i: int|
                0 <= i < members.len() ==> {
                    &&& (#[trigger] tagged[i]).0 == members[i].0
                    &&& if members[i].0@ == "tag"@ {
                        tagged[i].1.is_text(project)
                    } else {
                        tagged[i].1 == members[i].1
                    }
                }
        },
        _ => after == before,
    }
}

/// Whether `after` is the list of transactions `before` with each of them
/// filed under `project`. What is no array is as it was.
pub open spec fn is_tagged_list(before: Json, after: Json, project: Seq<char>) -> bool {
    match before {
        Json::Array(items) => {
            &&& after matches Json::Array(tagged)
            &&& tagged.len() == items.len()
            &&& forall|i: int|
                0 <= i < items.len() ==> is_tagged(items[i], #[trigger] tagged[i], project)
        },
        _ => after == before,
    }
}

/// Whether `after` is the payload `before` with the user's settings applied:
/// in an object, each member called `employeeEmail` holds `email`, and each
/// member called `transactionList` holds its transactions filed under
/// `project`. No member is added, none is removed, and all else is as it
/// was.
pub open spec fn is_applied(before: Json, after: Json, email: Seq<char>, project: Seq<char>) -> bool {
    match before {
        Json::Object(members) => {
            &&& after matches Json::Object(patched)
            &&& patched.len() == members.len()
            &&& forall|i: int|
                0 <= i < members.len() ==> {
                    &&& (#[trigger] patched[i]).0 == members[i].0
                    &&& if members[i].0@ == "employeeEmail"@ {
                        patched[i].1.is_text(email)
                    } else if members[i].0@ == "transactionList"@ {
                        is_tagged_list(members[i].1, patched[i].1, project)
                    } else {
                        patched[i].1 == members[i].1
                    }
                }
        },
        _ => after == before,
    }
}

/// The transaction `item` filed under `project`.
fn tag_transaction(item: Json, project: &String) -> (tagged: Json)
    ensures
        is_tagged(item, tagged, project@),
{
    match item {
        Json::Object(members) => {
            let ghost before = members@;
            let mut tagged: Vec<(String, Json)> = Vec::new();
            for member in it: members.into_iter()
                invariant
                    it.seq() == before,
                    tagged.len() == it.index(),
                    forall|i: int|
                        0 <= i < tagged.len() ==> {
                            &&& (#[trigger] tagged[i]).0 == before[i].0
                            &&& if before[i].0@ == "tag"@ {
                                tagged[i].1.is_text(project@)
                            } else {
                                tagged[i].1 == before[i].1
                            }
                        },
            {
                let (key, value) = member;
                if same_text(key.as_str(), "tag") {
                    tagged.push((key, Json::String(project.clone())));
                } else {
                    tagged.push((key, value));
                }
            }
            Json::Object(tagged)
        },
        other => other,
    }
}

/// The transactions of `list`, each filed under `project`.
fn tag_transactions(list: Json, project: &String) -> (tagged: Json)
    ensures
        is_tagged_list(list, tagged, project@),
{
    match list {
        Json::Array(items) => {
            let ghost before = items@;
            let mut tagged: Vec<Json> = Vec::new();
            for item in it: items.into_iter()
                invariant
                    it.seq() == before,
                    tagged.len() == it.index(),
                    forall|i: int|
                        0 <= i < tagged.len() ==> is_tagged(before[i], #[trigger] tagged[i], project@),
            {
                tagged.push(tag_transaction(item, project));
            }
            Json::Array(tagged)
        },
        other => other,
    }
}

impl UserContext {
    /// Puts the user's settings into a payload. In an object, the member
    /// `employeeEmail` is set to the user's email address, and in each
    /// object of the array `transactionList` the member `tag` is set to the
    /// user's project. A member that is not there is not made, and a payload
    /// of another shape comes back as it is.
    pub fn apply_to_value(&self, payload: Json) -> (patched: Json)
        ensures
            is_applied(payload, patched, self.email@, self.project@),
    {
        match payload {
            Json::Object(members) => {
                let ghost before = members@;
                let mut patched: Vec<(String, Json)> = Vec::new();
                for member in it: members.into_iter()
                    invariant
                        it.seq() == before,
                        patched.len() == it.index(),
                        forall|i: int|
                            0 <= i < patched.len() ==> {
                                &&& (#[trigger] patched[i]).0 == before[i].0
                                &&& if before[i].0@ == "employeeEmail"@ {
                                    patched[i].1.is_text(self.email@)
                                } else if before[i].0@ == "transactionList"@ {
                                    is_tagged_list(before[i].1, patched[i].1, self.project@)
                                } else {
                                    patched[i].1 == before[i].1
                                }
                            },
                {
                    let (key, value) = member;
                    if same_text(key.as_str(), "employeeEmail") {
                        patched.push((key, Json::String(self.email.clone())));
                    } else if same_text(key.as_str(), "transactionList") {
                        let list = tag_transactions(value, &self.project);
                        patched.push((key, list));
                    } else {
                        patched.push((key, value));
                    }
                }
                Json::Object(patched)
            },
            other => other,
        }
    }
}

impl Context {
    /// The Monday of the week of the reference date, or of the current week
    /// where the context holds no reference date. Fails where that Monday is
    /// before the first date that can be represented.
    pub fn monday_of_reference_date(&self) -> (monday: Result<Date, Error>)
        ensures
            self.reference_date matches Some(date) ==> date_outcome(monday) == checked_day(
                monday_of(date@),
            ),
            self.reference_date is None ==> exists|today: int|
                is_day_number(today) && date_outcome(monday) == checked_day(
                    #[trigger] monday_of(today),
                ),
    {
        match self.reference_date {
            Some(date) => date.monday_of_week(),
            None => {
                let today = Date::today();
                let monday = today.monday_of_week();
                assert(is_day_number(today@) && date_outcome(monday) == checked_day(
                    monday_of(today@),
                ));
                monday
            },
        }
    }
}

} // verus!
