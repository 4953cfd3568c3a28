//! JSON values, as far as this library reads and writes them.

use crate::text::{matches_exactly, to_chars};
use vstd::prelude::*;
use vstd::string::StringExecFns;

verus! {

/// A JSON number: a whole number held as such, any other as it is written.
#[derive(Debug, Clone, PartialEq, Eq)]
pub enum Number {
    /// A whole number that is not negative.
    PosInt(u64),
    /// A whole number that is negative.
    NegInt(i64),
    /// A number with a fraction or an exponent, in its JSON notation.
    Float(String),
}

/// A JSON value. The members of an object stand in the order in which they
/// were written.
#[derive(Debug, PartialEq, Eq)]
pub enum Json {
    Null,
    Bool(bool),
    Number(Number),
    String(String),
    Array(Vec<Json>),
    Object(Vec<(String, Json)>),
}

/// Whether `a` and `b` hold the same characters.
pub fn same_text(a: &str, b: &str) -> (same: bool)
    ensures
        same == (a@ == b@),
{
    let chars = to_chars(a);
    assert(chars@.subrange(0, chars.len() as int) == a@);
    matches_exactly(&chars, 0, chars.len(), b)
}

/// Position of the first member called `key`, or the number of members if
/// there is none.
pub open spec fn position_of(members: Seq<(String, Json)>, key: Seq<char>) -> int
    decreases members.len(),
{
    if members.len() == 0 || members[0].0@ == key {
        0
    } else {
        1 + position_of(members.drop_first(), key)
    }
}

/// `position_of` is the first position that holds a member called `key`.
pub proof fn lemma_position_of(members: Seq<(String, Json)>, key: Seq<char>, k: int)
    requires
        0 <= k <= members.len(),
        forall|j: int| 0 <= j < k ==> members[j].0@ != key,
        k < members.len() ==> members[k].0@ == key,
    ensures
        position_of(members, key) == k,
    decreases k,
{
    if k > 0 {
        let rest = members.drop_first();
        assert forall|j: int| 0 <= j < k - 1 implies rest[j].0@ != key by {
            assert(rest[j] == members[j + 1]);
        }
        lemma_position_of(rest, key, k - 1);
    }
}

impl Json {
    /// Whether the value is the text `text`.
    pub open spec fn is_text(self, text: Seq<char>) -> bool {
        self matches Json::String(s) && s@ == text
    }

    /// Whether the value is the whole number `n`.
    pub open spec fn is_integer(self, n: int) -> bool {
        ||| self matches Json::Number(Number::PosInt(value)) && value == n
        ||| self matches Json::Number(Number::NegInt(value)) && value == n
    }

    /// The member called `key` of the object that the value is: the first
    /// of that name. `None` for what is no object or has no such member.
    pub open spec fn member(self, key: Seq<char>) -> Option<Json> {
        match self {
            Json::Object(members) => if position_of(members@, key) < members.len() {
                Some(members[position_of(members@, key)].1)
            } else {
                None
            },
            _ => None,
        }
    }

    /// The number that the value is, where it is a whole number that is not
    /// negative.
    pub open spec fn unsigned(self) -> Option<u64> {
        match self {
            Json::Number(Number::PosInt(n)) => Some(n),
            Json::Number(Number::NegInt(n)) => if n >= 0 {
                Some(n as u64)
            } else {
                None
            },
            _ => None,
        }
    }

    /// The JSON text `text`.
    pub fn text(text: &str) -> (json: Json)
        ensures
            json.is_text(text@),
    {
        Json::String(String::from_str(text))
    }

    /// The JSON whole number `n`.
    pub fn integer(n: i64) -> (json: Json)
        ensures
            json.is_integer(n as int),
    {
        if n < 0 {
            Json::Number(Number::NegInt(n))
        } else {
            Json::Number(Number::PosInt(n as u64))
        }
    }

    /// The member called `key`, if the value is an object that has one.
    pub fn get(&self, key: &str) -> (found: Option<&Json>)
        ensures
            match self.member(key@) {
                Some(value) => found == Some(&value),
                None => found is None,
            },
    {
        match self {
            Json::Object(members) => {
                let mut i: usize = 0;
                while i < members.len()
                    invariant
                        *self == Json::Object(*members),
                        i <= members.len(),
                        forall|j: int| 0 <= j < i ==> members[j].0@ != key@,
                    decreases members.len() - i,
                {
                    if same_text(members[i].0.as_str(), key) {
                        proof {
                            lemma_position_of(members@, key@, i as int);
                        }
                        return Some(&members[i].1);
                    }
                    i += 1;
                }
                proof {
                    lemma_position_of(members@, key@, i as int);
                }
                None
            },
            _ => None,
        }
    }

    /// The number that the value is, where it is a whole number that is not
    /// negative.
    pub fn as_u64(&self) -> (n: Option<u64>)
        ensures
            n == self.unsigned(),
    {
        match self {
            Json::Number(Number::PosInt(n)) => Some(*n),
            Json::Number(Number::NegInt(n)) => if *n >= 0 {
                Some(*n as u64)
            } else {
                None
            },
            _ => None,
        }
    }
}

} // verus!
