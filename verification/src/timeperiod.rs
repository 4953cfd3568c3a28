//! Selections of days of one week, and the notation they are written in.
//!
//! A selection is written as `weekdays`, as one day (`mon`), as a range
//! (`mon-fri`) or as a list (`mon, wed, sat`). Whatever the notation, the
//! selection that comes out is in one normal form: days in weekly order, each
//! once; one day alone as a single day; two neighbouring days as a range.
//! Three or more listed days stay a list, neighbours or not.

use crate::error::{Error, ErrorView, SyntaxProblem};
use crate::text::{
    is_blank, is_whitespace, lemma_segments_unsplit, lemma_trim_padded, lowercase, matches_exactly,
    ranges_text, segment_ranges, segments, to_chars,
};
use crate::weekday::{is_letter, lemma_named_letters, lemma_no_day_is_weekdays, Weekday};
use vstd::prelude::*;
use vstd::string::{StrSliceExecFns, StringExecFns};

verus! {

/// A selection of days of one week.
#[derive(Debug, Clone, PartialEq, Eq)]
pub enum TimePeriod {
    /// Monday to Friday.
    Weekdays,
    /// One day.
    SingleDay(Weekday),
    /// The days from `from` to `to`, both included.
    DayRange { from: Weekday, to: Weekday },
    /// The listed days.
    Days(Vec<Weekday>),
}

/// A [`TimePeriod`] with its list as a sequence.
pub ghost enum TimePeriodView {
    Weekdays,
    SingleDay(Weekday),
    DayRange { from: Weekday, to: Weekday },
    Days(Seq<Weekday>),
}

impl View for TimePeriod {
    type V = TimePeriodView;

    open spec fn view(&self) -> TimePeriodView {
        match *self {
            TimePeriod::Weekdays => TimePeriodView::Weekdays,
            TimePeriod::SingleDay(day) => TimePeriodView::SingleDay(day),
            TimePeriod::DayRange { from, to } => TimePeriodView::DayRange { from, to },
            TimePeriod::Days(days) => TimePeriodView::Days(days@),
        }
    }
}

/// Whether the days stand in weekly order, none of them twice.
pub open spec fn ascending(days: Seq<Weekday>) -> bool {
    forall|i: int, j: int| 0 <= i < j < days.len() ==> days[i].ordinal() < days[j].ordinal()
}

impl TimePeriodView {
    /// Whether the selection is in normal form: a range runs forward over at
    /// least two days, and a list is in weekly order and is neither one day
    /// nor two neighbouring days.
    pub open spec fn wf(self) -> bool {
        match self {
            TimePeriodView::Weekdays => true,
            TimePeriodView::SingleDay(_) => true,
            TimePeriodView::DayRange { from, to } => from.ordinal() < to.ordinal(),
            TimePeriodView::Days(days) => {
                &&& ascending(days)
                &&& days.len() >= 2
                &&& days.len() == 2 ==> days[1].ordinal() != days[0].ordinal() + 1
            },
        }
    }
}

/// Whether one of `tokens` names `day`.
pub open spec fn names_day(tokens: Seq<Seq<char>>, day: Weekday) -> bool {
    exists|k: int| 0 <= k < tokens.len() && Weekday::named(#[trigger] tokens[k]) == Some(day)
}

/// The first of `tokens` that names no day.
pub open spec fn first_invalid(tokens: Seq<Seq<char>>) -> Option<Seq<char>>
    decreases tokens.len(),
{
    if tokens.len() == 0 {
        None
    } else if Weekday::named(tokens[0]) is None {
        Some(tokens[0])
    } else {
        first_invalid(tokens.drop_first())
    }
}

/// The days among the first `n` of the week that `tokens` name, in weekly
/// order.
pub open spec fn selected_days(tokens: Seq<Seq<char>>, n: nat) -> Seq<Weekday>
    decreases n,
{
    if n == 0 {
        Seq::empty()
    } else {
        let before = selected_days(tokens, (n - 1) as nat);
        let day = Weekday::at(n - 1);
        if names_day(tokens, day) {
            before.push(day)
        } else {
            before
        }
    }
}

/// The selection that a list of days, `word`, stands for: its parts between
/// commas, trimmed, empty ones skipped, must each name a day.
pub open spec fn day_list(word: Seq<char>) -> Result<TimePeriodView, ErrorView> {
    let tokens = segments(word, ',');
    let days = selected_days(tokens, 7);
    if first_invalid(tokens) is Some {
        Err(ErrorView::InvalidWeekday { input: first_invalid(tokens)->0 })
    } else if days.len() == 0 {
        Err(ErrorView::InvalidTimePeriodSyntax { input: word, problem: SyntaxProblem::NoWeekday })
    } else if days.len() == 1 {
        Ok(TimePeriodView::SingleDay(days[0]))
    } else if days.len() == 2 && days[1].ordinal() == days[0].ordinal() + 1 {
        Ok(TimePeriodView::DayRange { from: days[0], to: days[1] })
    } else {
        Ok(TimePeriodView::Days(days))
    }
}

/// The selection that the two ends of a range stand for.
pub open spec fn day_range(first: Seq<char>, second: Seq<char>) -> Result<
    TimePeriodView,
    ErrorView,
> {
    match (Weekday::named(first), Weekday::named(second)) {
        (None, _) => Err(ErrorView::InvalidWeekday { input: first }),
        (Some(_), None) => Err(ErrorView::InvalidWeekday { input: second }),
        (Some(from), Some(to)) => if from == to {
            Ok(TimePeriodView::SingleDay(from))
        } else if from.ordinal() > to.ordinal() {
            Err(ErrorView::InvalidDayOrder { from, to })
        } else {
            Ok(TimePeriodView::DayRange { from, to })
        },
    }
}

/// The selection that `s` stands for. The parts of `s` between `-`, trimmed,
/// empty ones skipped, are its words. One word is `weekdays` or a list of
/// days; two words are the ends of a range; anything else is refused.
pub open spec fn period_of(s: Seq<char>) -> Result<TimePeriodView, ErrorView> {
    let words = segments(s, '-');
    if words.len() == 1 {
        if words[0] == "weekdays"@ {
            Ok(TimePeriodView::Weekdays)
        } else {
            day_list(words[0])
        }
    } else if words.len() == 2 {
        day_range(words[0], words[1])
    } else {
        Err(ErrorView::InvalidTimePeriodSyntax { input: s, problem: SyntaxProblem::TooManyDays })
    }
}

/// What a result of parsing holds, with texts and lists as sequences.
pub open spec fn outcome(result: Result<TimePeriod, Error>) -> Result<TimePeriodView, ErrorView> {
    match result {
        Ok(period) => Ok(period@),
        Err(error) => Err(error@),
    }
}

/// The selected days are in weekly order, lie among the first `n` days of the
/// week, and are exactly those of them that a token names.
pub proof fn lemma_selected_days(tokens: Seq<Seq<char>>, n: nat)
    requires
        n <= 7,
    ensures
        ascending(selected_days(tokens, n)),
        selected_days(tokens, n).len() <= n,
        forall|i: int|
            0 <= i < selected_days(tokens, n).len() ==> {
                &&& (#[trigger] selected_days(tokens, n)[i]).ordinal() < n
                &&& names_day(tokens, selected_days(tokens, n)[i])
            },
        forall|day: Weekday|
            day.ordinal() < n && names_day(tokens, day) ==> selected_days(tokens, n).contains(day),
    decreases n,
{
    if n > 0 {
        let before = selected_days(tokens, (n - 1) as nat);
        let last = Weekday::at(n - 1);
        lemma_selected_days(tokens, (n - 1) as nat);
        let now = selected_days(tokens, n);
        assert(last.ordinal() == n - 1);
        assert forall|day: Weekday| day.ordinal() < n && names_day(tokens, day) implies now.contains(
            day,
        ) by {
            if day.ordinal() < n - 1 {
                let i = choose|i: int| 0 <= i < before.len() && before[i] == day;
                assert(now[i] == day);
            } else {
                assert(day == last);
                assert(now[now.len() - 1] == day);
            }
        }
    }
}

/// A list of days that is accepted stands for a selection in normal form.
pub proof fn lemma_day_list_wf(word: Seq<char>)
    ensures
        day_list(word) matches Ok(period) ==> period.wf(),
{
    lemma_selected_days(segments(word, ','), 7);
}

/// Where the tokens name one day and no other, that day is all that is
/// selected.
proof fn lemma_selected_single(tokens: Seq<Seq<char>>, day: Weekday, n: nat)
    requires
        n <= 7,
        forall|other: Weekday| names_day(tokens, other) <==> other == day,
    ensures
        selected_days(tokens, n) == if day.ordinal() < n {
            seq![day]
        } else {
            Seq::empty()
        },
    decreases n,
{
    if n > 0 {
        lemma_selected_single(tokens, day, (n - 1) as nat);
        assert(Weekday::at(n - 1).ordinal() == n - 1);
        if day.ordinal() == n - 1 {
            assert(Weekday::at(n - 1) == day);
            assert(Seq::<Weekday>::empty().push(day) == seq![day]);
        }
    }
}

/// One day, written in any of its forms and with any whitespace around it,
/// is read as that single day.
pub proof fn lemma_single_day_padded(
    before: Seq<char>,
    token: Seq<char>,
    after: Seq<char>,
    day: Weekday,
)
    requires
        is_blank(before),
        is_blank(after),
        Weekday::named(token) == Some(day),
    ensures
        period_of(before + token + after) == Ok::<TimePeriodView, ErrorView>(
            TimePeriodView::SingleDay(day),
        ),
{
    let s = before + token + after;
    let none = Seq::<char>::empty();
    lemma_named_letters(token);
    assert forall|i: int| 0 <= i < token.len() implies !is_whitespace(#[trigger] token[i])
        && token[i] != '-' && token[i] != ',' by {
        assert(is_letter(token[i]));
    }
    assert(!is_whitespace(token[0]));
    assert(!is_whitespace(token.last()));
    lemma_trim_padded(before, token, after);
    assert forall|i: int| 0 <= i < s.len() implies s[i] != '-' by {
        if i < before.len() {
            assert(is_whitespace(before[i]));
        } else if i < before.len() + token.len() {
            assert(s[i] == token[i - before.len()]);
        } else {
            assert(is_whitespace(after[i - before.len() - token.len()]));
        }
    }
    lemma_segments_unsplit(s, '-');
    assert(segments(s, '-') == seq![token]);
    assert(token != "weekdays"@) by {
        reveal_strlit("weekdays");
        if token == "weekdays"@ {
            assert(lowercase(token) =~= "weekdays"@);
            lemma_no_day_is_weekdays();
        }
    }
    assert(is_blank(none));
    assert(none + token + none == token);
    lemma_trim_padded(none, token, none);
    lemma_segments_unsplit(token, ',');
    let tokens = segments(token, ',');
    assert(tokens == seq![token]);
    assert(tokens.drop_first().len() == 0);
    assert(first_invalid(tokens.drop_first()) is None);
    assert(first_invalid(tokens) is None);
    assert forall|other: Weekday| names_day(tokens, other) <==> other == day by {
        if other == day {
            assert(Weekday::named(tokens[0]) == Some(day));
        }
    }
    lemma_selected_single(tokens, day, 7);
}

impl TimePeriod {
    /// Reads the list of days in `chars[lo..hi]`; `s` is the text that
    /// `chars` holds.
    fn parse_day_list(s: &str, chars: &Vec<char>, lo: usize, hi: usize) -> (period: Result<
        TimePeriod,
        Error,
    >)
        requires
            chars@ == s@,
            lo <= hi <= chars.len(),
        ensures
            outcome(period) == day_list(chars@.subrange(lo as int, hi as int)),
    {
        let ghost word = chars@.subrange(lo as int, hi as int);
        let ghost tokens = segments(word, ',');
        let ranges = segment_ranges(chars, lo, hi, ',');
        assert(ranges_text(chars@, ranges@) == tokens);
        let mut present: Vec<bool> = Vec::new();
        present.push(false);
        present.push(false);
        present.push(false);
        present.push(false);
        present.push(false);
        present.push(false);
        present.push(false);
        let mut k: usize = 0;
        assert(tokens.skip(0) == tokens);
        while k < ranges.len()
            invariant
                chars@ == s@,
                lo <= hi <= chars.len(),
                k <= ranges.len(),
                tokens == segments(chars@.subrange(lo as int, hi as int), ','),
                tokens == ranges_text(chars@, ranges@),
                tokens.len() == ranges.len(),
                forall|j: int|
                    0 <= j < ranges.len() ==> lo <= (#[trigger] ranges[j]).0 < ranges[j].1 <= hi,
                present.len() == 7,
                forall|j: int| 0 <= j < k ==> Weekday::named(#[trigger] tokens[j]) is Some,
                first_invalid(tokens) == first_invalid(tokens.skip(k as int)),
                forall|d: int|
                    0 <= d < 7 ==> (#[trigger] present[d] <==> exists|j: int|
                        0 <= j < k && Weekday::named(#[trigger] tokens[j]) == Some(Weekday::at(d))),
            decreases ranges.len() - k,
        {
            let (a, b) = ranges[k];
            assert(tokens[k as int] == chars@.subrange(a as int, b as int));
            assert(tokens.skip(k as int)[0] == tokens[k as int]);
            match Weekday::parse_range(chars, a, b) {
                None => {
                    assert(first_invalid(tokens.skip(k as int)) == Some(tokens[k as int]));
                    return Err(
                        Error::InvalidWeekday { input: String::from_str(s.substring_char(a, b)) },
                    );
                },
                Some(day) => {
                    let ghost before = present@;
                    present.set(day.numerical() as usize, true);
                    assert(tokens.skip(k as int).drop_first() == tokens.skip(k + 1));
                    assert forall|d: int| 0 <= d < 7 implies (#[trigger] present[d] <==> exists|
                        j: int,
                    |
                        0 <= j < k + 1 && Weekday::named(#[trigger] tokens[j]) == Some(
                            Weekday::at(d),
                        )) by {
                        if d == day.ordinal() {
                            assert(Weekday::named(tokens[k as int]) == Some(Weekday::at(d)));
                        } else {
                            assert(present[d] == before[d]);
                            if present[d] {
                                let j = choose|j: int|
                                    0 <= j < k && Weekday::named(#[trigger] tokens[j]) == Some(
                                        Weekday::at(d),
                                    );
                                assert(0 <= j < k + 1);
                            }
                        }
                    }
                },
            }
            k += 1;
        }
        assert(first_invalid(tokens) is None);
        let mut days: Vec<Weekday> = Vec::new();
        let mut n: u8 = 0;
        while n < 7
            invariant
                n <= 7,
                present.len() == 7,
                days@ == selected_days(tokens, n as nat),
                forall|d: int|
                    0 <= d < 7 ==> (#[trigger] present[d] <==> exists|j: int|
                        0 <= j < tokens.len() && Weekday::named(#[trigger] tokens[j]) == Some(
                            Weekday::at(d),
                        )),
            decreases 7 - n,
        {
            if present[n as usize] {
                days.push(Weekday::from_ordinal(n));
            }
            n += 1;
        }
        if days.len() == 0 {
            Err(
                Error::InvalidTimePeriodSyntax {
                    input: String::from_str(s.substring_char(lo, hi)),
                    problem: SyntaxProblem::NoWeekday,
                },
            )
        } else if days.len() == 1 {
            Ok(TimePeriod::SingleDay(days[0]))
        } else if days.len() == 2 && days[1].numerical() == days[0].numerical() + 1 {
            Ok(TimePeriod::DayRange { from: days[0], to: days[1] })
        } else {
            Ok(TimePeriod::Days(days))
        }
    }

    /// Reads the range whose ends are `chars[first.0..first.1]` and
    /// `chars[second.0..second.1]`; `s` is the text that `chars` holds.
    fn parse_day_range(s: &str, chars: &Vec<char>, first: (usize, usize), second: (usize, usize)) -> (period:
        Result<TimePeriod, Error>)
        requires
            chars@ == s@,
            first.0 <= first.1 <= chars.len(),
            second.0 <= second.1 <= chars.len(),
        ensures
            outcome(period) == day_range(
                chars@.subrange(first.0 as int, first.1 as int),
                chars@.subrange(second.0 as int, second.1 as int),
            ),
    {
        let from = match Weekday::parse_range(chars, first.0, first.1) {
            Some(day) => day,
            None => {
                return Err(
                    Error::InvalidWeekday {
                        input: String::from_str(s.substring_char(first.0, first.1)),
                    },
                );
            },
        };
        let to = match Weekday::parse_range(chars, second.0, second.1) {
            Some(day) => day,
            None => {
                return Err(
                    Error::InvalidWeekday {
                        input: String::from_str(s.substring_char(second.0, second.1)),
                    },
                );
            },
        };
        if from == to {
            Ok(TimePeriod::SingleDay(from))
        } else if from.is_after(&to) {
            Err(Error::InvalidDayOrder { from, to })
        } else {
            Ok(TimePeriod::DayRange { from, to })
        }
    }

    /// Whether the selection is in normal form.
    pub fn is_well_formed(&self) -> (wf: bool)
        ensures
            wf == self@.wf(),
    {
        match self {
            TimePeriod::Weekdays => true,
            TimePeriod::SingleDay(_) => true,
            TimePeriod::DayRange { from, to } => to.is_after(from),
            TimePeriod::Days(days) => {
                if days.len() < 2 {
                    return false;
                }
                if days.len() == 2 && days[1].numerical() == days[0].numerical() + 1 {
                    return false;
                }
                let mut i: usize = 1;
                while i < days.len()
                    invariant
                        self@ == TimePeriodView::Days(days@),
                        days.len() >= 2,
                        days.len() == 2 ==> days[1].ordinal() != days[0].ordinal() + 1,
                        1 <= i <= days.len(),
                        forall|a: int, b: int|
                            0 <= a < b < i ==> days[a].ordinal() < days[b].ordinal(),
                    decreases days.len() - i,
                {
                    if !days[i].is_after(&days[i - 1]) {
                        assert(!(days@[i - 1].ordinal() < days@[i as int].ordinal()));
                        return false;
                    }
                    i += 1;
                }
                true
            },
        }
    }

    /// Reads a selection of days: `weekdays`, one day, a range `from-to`, or
    /// a list of days with commas between them. Days are written as
    /// [`Weekday::parse`] reads them; whitespace around words and days, and
    /// empty places between commas or dashes, do not count. What comes out is
    /// in normal form. A range that runs backwards, a word that names no day,
    /// a list without a day and more than two words around `-` are refused,
    /// each with its own error.
    pub fn parse(s: &str) -> (period: Result<TimePeriod, Error>)
        ensures
            outcome(period) == period_of(s@),
            period matches Ok(p) ==> p@.wf(),
    {
        let chars = to_chars(s);
        let n = chars.len();
        assert(chars@.subrange(0, n as int) == s@);
        let words = segment_ranges(&chars, 0, n, '-');
        let ghost texts = segments(s@, '-');
        assert(texts == ranges_text(chars@, words@));
        if words.len() == 1 {
            let (lo, hi) = words[0];
            assert(texts[0] == chars@.subrange(lo as int, hi as int));
            if matches_exactly(&chars, lo, hi, "weekdays") {
                Ok(TimePeriod::Weekdays)
            } else {
                proof {
                    lemma_day_list_wf(texts[0]);
                }
                TimePeriod::parse_day_list(s, &chars, lo, hi)
            }
        } else if words.len() == 2 {
            assert(texts[0] == chars@.subrange(words[0].0 as int, words[0].1 as int));
            assert(texts[1] == chars@.subrange(words[1].0 as int, words[1].1 as int));
            TimePeriod::parse_day_range(s, &chars, words[0], words[1])
        } else {
            Err(
                Error::InvalidTimePeriodSyntax {
                    input: String::from_str(s),
                    problem: SyntaxProblem::TooManyDays,
                },
            )
        }
    }
}

impl std::str::FromStr for TimePeriod {
    type Err = Error;

    /// Reads a selection of days as [`TimePeriod::parse`] does.
    fn from_str(s: &str) -> (period: Result<TimePeriod, Error>)
        ensures
            outcome(period) == period_of(s@),
            period matches Ok(p) ==> p@.wf(),
    {
        TimePeriod::parse(s)
    }
}

} // verus!
