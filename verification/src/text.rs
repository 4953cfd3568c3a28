//! Character-level helpers shared by the parsers and formatters.
//!
//! Text is modelled as `Seq<char>`. The executable functions work on a
//! `Vec<char>` and address pieces of it by half-open index ranges.

use vstd::prelude::*;

verus! {

/// Whether `c` has the Unicode `White_Space` property.
pub open spec fn is_whitespace(c: char) -> bool {
    let n = c as u32;
    ||| 0x09 <= n <= 0x0D
    ||| n == 0x20
    ||| n == 0x85
    ||| n == 0xA0
    ||| n == 0x1680
    ||| 0x2000 <= n <= 0x200A
    ||| n == 0x2028
    ||| n == 0x2029
    ||| n == 0x202F
    ||| n == 0x205F
    ||| n == 0x3000
}

/// `c` with the ASCII letters `A` to `Z` mapped to `a` to `z`.
pub open spec fn lower(c: char) -> char {
    if 'A' <= c <= 'Z' {
        ((c as u8) + 32) as char
    } else {
        c
    }
}

/// `s` with every character mapped through [`lower`].
pub open spec fn lowercase(s: Seq<char>) -> Seq<char> {
    Seq::new(s.len(), |i: int| lower(s[i]))
}

/// `s` without its leading whitespace.
pub open spec fn trim_start(s: Seq<char>) -> Seq<char>
    decreases s.len(),
{
    if s.len() > 0 && is_whitespace(s[0]) {
        trim_start(s.drop_first())
    } else {
        s
    }
}

/// `s` without its trailing whitespace.
pub open spec fn trim_end(s: Seq<char>) -> Seq<char>
    decreases s.len(),
{
    if s.len() > 0 && is_whitespace(s.last()) {
        trim_end(s.drop_last())
    } else {
        s
    }
}

/// `s` without leading and trailing whitespace.
pub open spec fn trim(s: Seq<char>) -> Seq<char> {
    trim_end(trim_start(s))
}

/// Position of the first `sep` in `s`, or `s.len()` if there is none.
pub open spec fn index_of(s: Seq<char>, sep: char) -> int
    decreases s.len(),
{
    if s.len() == 0 || s[0] == sep {
        0
    } else {
        1 + index_of(s.drop_first(), sep)
    }
}

/// The pieces of `s` between occurrences of `sep`, each trimmed, empty ones
/// left out, in the order in which they occur.
pub open spec fn segments(s: Seq<char>, sep: char) -> Seq<Seq<char>>
    decreases s.len(),
{
    let i = index_of(s, sep);
    let head = trim(s.take(i));
    let first = if head.len() > 0 {
        seq![head]
    } else {
        Seq::empty()
    };
    if 0 <= i < s.len() {
        first + segments(s.skip(i + 1), sep)
    } else {
        first
    }
}

/// The pieces of `chars` that the index ranges in `ranges` select.
pub open spec fn ranges_text(chars: Seq<char>, ranges: Seq<(usize, usize)>) -> Seq<Seq<char>> {
    Seq::new(ranges.len(), |k: int| chars.subrange(ranges[k].0 as int, ranges[k].1 as int))
}

/// The decimal digit for `d`, which is below ten.
pub open spec fn digit(d: nat) -> char {
    (('0' as u8) + d) as char
}

/// `n` in decimal notation, without leading zeros.
pub open spec fn decimal(n: nat) -> Seq<char>
    decreases n,
{
    if n < 10 {
        seq![digit(n)]
    } else {
        decimal(n / 10).push(digit(n % 10))
    }
}

/// `n`, which is below 100, as two decimal digits.
pub open spec fn two_digits(n: nat) -> Seq<char> {
    seq![digit(n / 10), digit(n % 10)]
}

/// An amount of `cents` hundredths in decimal notation with two places after
/// the point, and a minus sign before it where it is negative.
pub open spec fn money(cents: int) -> Seq<char> {
    let size = if cents < 0 {
        -cents
    } else {
        cents
    };
    let sign = if cents < 0 {
        "-"@
    } else {
        Seq::empty()
    };
    sign + decimal((size / 100) as nat) + "."@ + two_digits((size % 100) as nat)
}

/// `index_of` is the first position that holds `sep`.
pub proof fn lemma_index_of(s: Seq<char>, sep: char, k: int)
    requires
        0 <= k <= s.len(),
        forall|j: int| 0 <= j < k ==> s[j] != sep,
        k < s.len() ==> s[k] == sep,
    ensures
        index_of(s, sep) == k,
    decreases k,
{
    if k > 0 {
        let rest = s.drop_first();
        assert forall|j: int| 0 <= j < k - 1 implies rest[j] != sep by {
            assert(rest[j] == s[j + 1]);
        }
        lemma_index_of(rest, sep, k - 1);
    }
}

/// Whether every character of `s` is whitespace.
pub open spec fn is_blank(s: Seq<char>) -> bool {
    forall|i: int| 0 <= i < s.len() ==> is_whitespace(#[trigger] s[i])
}

/// Whitespace before a text does not outlast `trim_start`.
pub proof fn lemma_trim_start_blank(blank: Seq<char>, rest: Seq<char>)
    requires
        is_blank(blank),
    ensures
        trim_start(blank + rest) == trim_start(rest),
    decreases blank.len(),
{
    if blank.len() > 0 {
        assert((blank + rest).drop_first() == blank.drop_first() + rest);
        assert((blank + rest)[0] == blank[0]);
        assert forall|i: int| 0 <= i < blank.drop_first().len() implies is_whitespace(
            #[trigger] blank.drop_first()[i],
        ) by {
            assert(blank.drop_first()[i] == blank[i + 1]);
        }
        lemma_trim_start_blank(blank.drop_first(), rest);
    } else {
        assert(blank + rest == rest);
    }
}

/// Whitespace after a text does not outlast `trim_end`.
pub proof fn lemma_trim_end_blank(rest: Seq<char>, blank: Seq<char>)
    requires
        is_blank(blank),
    ensures
        trim_end(rest + blank) == trim_end(rest),
    decreases blank.len(),
{
    if blank.len() > 0 {
        assert((rest + blank).drop_last() == rest + blank.drop_last());
        assert((rest + blank).last() == blank.last());
        assert forall|i: int| 0 <= i < blank.drop_last().len() implies is_whitespace(
            #[trigger] blank.drop_last()[i],
        ) by {
            assert(blank.drop_last()[i] == blank[i]);
        }
        lemma_trim_end_blank(rest, blank.drop_last());
    } else {
        assert(rest + blank == rest);
    }
}

/// To trim a text that has whitespace around a core, and none at the ends of
/// the core, leaves the core.
pub proof fn lemma_trim_padded(before: Seq<char>, core: Seq<char>, after: Seq<char>)
    requires
        is_blank(before),
        is_blank(after),
        core.len() > 0,
        !is_whitespace(core[0]),
        !is_whitespace(core.last()),
    ensures
        trim(before + core + after) == core,
{
    assert(before + core + after == before + (core + after));
    lemma_trim_start_blank(before, core + after);
    assert((core + after)[0] == core[0]);
    lemma_trim_end_blank(core, after);
}

/// A text without `sep` has one segment, itself trimmed, or none where
/// nothing is left of it.
pub proof fn lemma_segments_unsplit(s: Seq<char>, sep: char)
    requires
        forall|i: int| 0 <= i < s.len() ==> s[i] != sep,
    ensures
        segments(s, sep) == if trim(s).len() > 0 {
            seq![trim(s)]
        } else {
            Seq::empty()
        },
{
    lemma_index_of(s, sep, s.len() as int);
    assert(s.take(s.len() as int) == s);
}

/// The characters of `s`, in order.
pub fn to_chars(s: &str) -> (chars: Vec<char>)
    ensures
        chars@ == s@,
{
    broadcast use vstd::string::group_string_axioms;

    let mut chars: Vec<char> = Vec::new();
    for c in it: s.chars()
        invariant
            chars@ == it.history(),
            it.seq() == s@,
    {
        chars.push(c);
    }
    chars
}

/// Executable form of [`is_whitespace`].
pub fn char_is_whitespace(c: char) -> (r: bool)
    ensures
        r == is_whitespace(c),
{
    let n: u32 = c as u32;
    (0x09 <= n && n <= 0x0D) || n == 0x20 || n == 0x85 || n == 0xA0 || n == 0x1680 || (0x2000 <= n
        && n <= 0x200A) || n == 0x2028 || n == 0x2029 || n == 0x202F || n == 0x205F || n == 0x3000
}

/// Executable form of [`lower`].
pub fn char_to_lower(c: char) -> (r: char)
    ensures
        r == lower(c),
{
    if 'A' <= c && c <= 'Z' {
        ((c as u8) + 32) as char
    } else {
        c
    }
}

/// Narrows `lo..hi` to the range that [`trim`] keeps.
pub fn trim_range(chars: &Vec<char>, lo: usize, hi: usize) -> (r: (usize, usize))
    requires
        lo <= hi <= chars.len(),
    ensures
        lo <= r.0 <= r.1 <= hi,
        chars@.subrange(r.0 as int, r.1 as int) == trim(chars@.subrange(lo as int, hi as int)),
{
    let mut a: usize = lo;
    while a < hi && char_is_whitespace(chars[a])
        invariant
            lo <= a <= hi <= chars.len(),
            trim_start(chars@.subrange(a as int, hi as int)) == trim_start(
                chars@.subrange(lo as int, hi as int),
            ),
        decreases hi - a,
    {
        assert(chars@.subrange(a as int, hi as int).drop_first() == chars@.subrange(
            a + 1,
            hi as int,
        ));
        a += 1;
    }
    let mut b: usize = hi;
    while a < b && char_is_whitespace(chars[b - 1])
        invariant
            a <= b <= hi <= chars.len(),
            trim_end(chars@.subrange(a as int, b as int)) == trim_end(
                chars@.subrange(a as int, hi as int),
            ),
        decreases b - a,
    {
        assert(chars@.subrange(a as int, b as int).drop_last() == chars@.subrange(
            a as int,
            b - 1,
        ));
        b -= 1;
    }
    (a, b)
}

/// The index ranges of the [`segments`] of `chars[lo..hi]`.
pub fn segment_ranges(chars: &Vec<char>, lo: usize, hi: usize, sep: char) -> (ranges: Vec<
    (usize, usize),
>)
    requires
        lo <= hi <= chars.len(),
    ensures
        ranges_text(chars@, ranges@) == segments(chars@.subrange(lo as int, hi as int), sep),
        forall|k: int| 0 <= k < ranges.len() ==> lo <= (#[trigger] ranges[k]).0 < ranges[k].1 <= hi,
{
    let mut ranges: Vec<(usize, usize)> = Vec::new();
    let mut start: usize = lo;
    let mut i: usize = lo;
    while i < hi
        invariant
            lo <= start <= i <= hi <= chars.len(),
            forall|j: int| start <= j < i ==> chars[j] != sep,
            forall|k: int| 0 <= k < ranges.len() ==> lo <= (#[trigger] ranges[k]).0 < ranges[k].1 <= hi,
            ranges_text(chars@, ranges@) + segments(chars@.subrange(start as int, hi as int), sep)
                == segments(chars@.subrange(lo as int, hi as int), sep),
        decreases hi - i,
    {
        if chars[i] == sep {
            let ghost rest = chars@.subrange(start as int, hi as int);
            let ghost before = ranges_text(chars@, ranges@);
            let (a, b) = trim_range(chars, start, i);
            proof {
                lemma_index_of(rest, sep, i - start);
                assert(rest.take(i - start) == chars@.subrange(start as int, i as int));
                assert(rest.skip(i - start + 1) == chars@.subrange(i + 1, hi as int));
            }
            if a < b {
                ranges.push((a, b));
                assert(ranges_text(chars@, ranges@) == before + seq![
                    chars@.subrange(a as int, b as int),
                ]);
            }
            assert(ranges_text(chars@, ranges@) + segments(chars@.subrange(i + 1, hi as int), sep)
                == before + segments(rest, sep));
            start = i + 1;
        }
        i += 1;
    }
    let ghost rest = chars@.subrange(start as int, hi as int);
    let ghost before = ranges_text(chars@, ranges@);
    let (a, b) = trim_range(chars, start, hi);
    proof {
        lemma_index_of(rest, sep, hi - start);
        assert(rest.take(hi - start) == rest);
    }
    if a < b {
        ranges.push((a, b));
        assert(ranges_text(chars@, ranges@) == before + seq![chars@.subrange(a as int, b as int)]);
    }
    ranges
}

/// Whether `chars[lo..hi]`, compared without regard to ASCII case, is the
/// lower-case `word`.
pub fn matches_lowercase(chars: &Vec<char>, lo: usize, hi: usize, word: &str) -> (r: bool)
    requires
        lo <= hi <= chars.len(),
    ensures
        r == (lowercase(chars@.subrange(lo as int, hi as int)) == word@),
{
    let word_chars = to_chars(word);
    let ghost piece = chars@.subrange(lo as int, hi as int);
    if word_chars.len() != hi - lo {
        return false;
    }
    let mut i: usize = 0;
    while i < hi - lo
        invariant
            lo <= hi <= chars.len(),
            i <= hi - lo,
            word_chars@ == word@,
            word_chars.len() == hi - lo,
            piece == chars@.subrange(lo as int, hi as int),
            forall|j: int| 0 <= j < i ==> lower(piece[j]) == word_chars[j],
        decreases hi - lo - i,
    {
        if char_to_lower(chars[lo + i]) != word_chars[i] {
            assert(lowercase(piece)[i as int] != word@[i as int]);
            return false;
        }
        i += 1;
    }
    assert(lowercase(piece) =~= word@);
    true
}

/// Whether `chars[lo..hi]` is exactly `word`.
pub fn matches_exactly(chars: &Vec<char>, lo: usize, hi: usize, word: &str) -> (r: bool)
    requires
        lo <= hi <= chars.len(),
    ensures
        r == (chars@.subrange(lo as int, hi as int) == word@),
{
    let word_chars = to_chars(word);
    let ghost piece = chars@.subrange(lo as int, hi as int);
    if word_chars.len() != hi - lo {
        return false;
    }
    let mut i: usize = 0;
    while i < hi - lo
        invariant
            lo <= hi <= chars.len(),
            i <= hi - lo,
            word_chars@ == word@,
            word_chars.len() == hi - lo,
            piece == chars@.subrange(lo as int, hi as int),
            forall|j: int| 0 <= j < i ==> piece[j] == word_chars[j],
        decreases hi - lo - i,
    {
        if chars[lo + i] != word_chars[i] {
            assert(piece[i as int] != word@[i as int]);
            return false;
        }
        i += 1;
    }
    assert(piece =~= word@);
    true
}

/// The one-character text of the decimal digit `d`.
fn digit_str(d: u8) -> (s: &'static str)
    requires
        d < 10,
    ensures
        s@ == seq![digit(d as nat)],
{
    proof {
        reveal_strlit("0");
        reveal_strlit("1");
        reveal_strlit("2");
        reveal_strlit("3");
        reveal_strlit("4");
        reveal_strlit("5");
        reveal_strlit("6");
        reveal_strlit("7");
        reveal_strlit("8");
        reveal_strlit("9");
    }
    let s = match d {
        0 => "0",
        1 => "1",
        2 => "2",
        3 => "3",
        4 => "4",
        5 => "5",
        6 => "6",
        7 => "7",
        8 => "8",
        _ => "9",
    };
    assert(s@ =~= seq![digit(d as nat)]);
    s
}

/// Appends [`decimal`] of `n` to `out`.
pub fn push_decimal(out: &mut String, n: u64)
    ensures
        final(out)@ == old(out)@ + decimal(n as nat),
    decreases n,
{
    if n >= 10 {
        push_decimal(out, n / 10);
    }
    out.append(digit_str((n % 10) as u8));
    assert(final(out)@ =~= old(out)@ + decimal(n as nat));
}

/// Appends [`money`] of `cents` to `out`.
pub fn push_money(out: &mut String, cents: i32)
    ensures
        final(out)@ == old(out)@ + money(cents as int),
{
    let size: u64 = if cents < 0 {
        (-(cents as i64)) as u64
    } else {
        cents as u64
    };
    if cents < 0 {
        out.append("-");
    }
    let ghost signed = out@;
    push_decimal(out, size / 100);
    out.append(".");
    let rest: u8 = (size % 100) as u8;
    out.append(digit_str(rest / 10));
    out.append(digit_str(rest % 10));
    assert(final(out)@ =~= old(out)@ + money(cents as int));
}

} // verus!
