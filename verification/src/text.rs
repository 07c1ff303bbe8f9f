//! Text building blocks: decimal rendering of integers, the framing of a
//! line for the wire, and the string functions of `std` that the crate
//! relies on.

use vstd::prelude::*;
use vstd::string::{StrSliceExecFns, StringExecFns};

verus! {

/// The character that stands for a single decimal digit.
pub open spec fn digit_char(d: nat) -> char {
    if d == 0 {
        '0'
    } else if d == 1 {
        '1'
    } else if d == 2 {
        '2'
    } else if d == 3 {
        '3'
    } else if d == 4 {
        '4'
    } else if d == 5 {
        '5'
    } else if d == 6 {
        '6'
    } else if d == 7 {
        '7'
    } else if d == 8 {
        '8'
    } else {
        '9'
    }
}

/// The decimal digits of a natural number, most significant first, without
/// leading zeros (zero itself is the single digit `0`).
pub open spec fn decimal(n: nat) -> Seq<char>
    decreases n,
{
    if n < 10 {
        seq![digit_char(n)]
    } else {
        decimal(n / 10).push(digit_char(n % 10))
    }
}

/// The decimal rendering of an integer: a minus sign in front of the digits of
/// its magnitude when it is negative.
pub open spec fn signed_decimal(n: int) -> Seq<char> {
    if n < 0 {
        seq!['-'] + decimal((-n) as nat)
    } else {
        decimal(n as nat)
    }
}

fn digit_str(d: u64) -> (s: &'static str)
    requires
        d < 10,
    ensures
        s@ == seq![digit_char(d as nat)],
{
    proof {
        reveal_strlit("0");
        reveal_strlit("1");
        reveal_strlit("2");
        reveal_strlit("3");
        reveal_strlit("4");
        reveal_strlit("5");
        reveal_strlit("6");
        reveal_strlit("7");
        reveal_strlit("8");
        reveal_strlit("9");
    }
    let s = if d == 0 {
        "0"
    } else if d == 1 {
        "1"
    } else if d == 2 {
        "2"
    } else if d == 3 {
        "3"
    } else if d == 4 {
        "4"
    } else if d == 5 {
        "5"
    } else if d == 6 {
        "6"
    } else if d == 7 {
        "7"
    } else if d == 8 {
        "8"
    } else {
        "9"
    };
    assert(s@ =~= seq![digit_char(d as nat)]);
    s
}

/// Renders an unsigned integer in decimal.
pub fn u64_to_string(n: u64) -> (s: String)
    ensures
        s@ == decimal(n as nat),
    decreases n,
{
    if n < 10 {
        String::from_str(digit_str(n))
    } else {
        let mut s = u64_to_string(n / 10);
        s.append(digit_str(n % 10));
        assert(s@ =~= decimal(n as nat));
        s
    }
}

/// Renders a signed 32-bit integer in decimal.
pub fn i32_to_string(n: i32) -> (s: String)
    ensures
        s@ == signed_decimal(n as int),
{
    if n < 0 {
        let magnitude: u64 = (-(n as i64)) as u64;
        let mut s = String::from_str("-");
        let digits = u64_to_string(magnitude);
        s.append(digits.as_str());
        proof {
            reveal_strlit("-");
            assert(s@ =~= signed_decimal(n as int));
        }
        s
    } else {
        u64_to_string(n as u64)
    }
}

/// What `str::trim` leaves of a text: the text without the white space at its
/// two ends.
pub uninterp spec fn trimmed(s: Seq<char>) -> Seq<char>;

/// `str::trim`: the text without leading and trailing white space, named by
/// `trimmed`.
#[verifier::external_body]
pub(crate) fn trim(s: &str) -> (r: &str)
    ensures
        r@ == trimmed(s@),
{
    s.trim()
}

/// A text occurs in another as a run of consecutive characters.
pub open spec fn contains_text(hay: Seq<char>, needle: Seq<char>) -> bool {
    exists|i: int|
        0 <= i <= hay.len() - needle.len() && #[trigger] hay.subrange(i, i + needle.len())
            == needle
}

/// `str::contains` with a text as the pattern: whether the pattern matches a
/// sub-slice of the text.
#[verifier::external_body]
pub(crate) fn contains(hay: &str, needle: &str) -> (r: bool)
    ensures
        r == contains_text(hay@, needle@),
{
    hay.contains(needle)
}

/// What `str::lines` makes of a text: its lines, in their order, without
/// the line endings.
pub uninterp spec fn text_lines(s: Seq<char>) -> Seq<Seq<char>>;

/// `str::lines`: the lines of a text, named by `text_lines`.
#[verifier::external_body]
pub(crate) fn lines(s: &str) -> (r: Vec<String>)
    ensures
        r@.len() == text_lines(s@).len(),
        forall|i: int| 0 <= i < r@.len() ==> (#[trigger] r@[i])@ == text_lines(s@)[i],
{
    s.lines().map(|line| line.to_owned()).collect()
}

/// What `str::to_uppercase` makes of a text.
pub uninterp spec fn uppercased(s: Seq<char>) -> Seq<char>;

/// `str::to_uppercase`: the text in upper case, named by `uppercased`.
#[verifier::external_body]
pub(crate) fn to_uppercase(s: &str) -> (r: String)
    ensures
        r@ == uppercased(s@),
{
    s.to_uppercase()
}

/// What `str::to_lowercase` makes of a text.
pub uninterp spec fn lowercased(s: Seq<char>) -> Seq<char>;

/// `str::to_lowercase`: the text in lower case, named by `lowercased`.
#[verifier::external_body]
pub(crate) fn to_lowercase(s: &str) -> (r: String)
    ensures
        r@ == lowercased(s@),
{
    s.to_lowercase()
}

/// The place of the first occurrence of a character in a text, if it
/// occurs.
pub open spec fn first_index_of(s: Seq<char>, c: char) -> Option<int> {
    if exists|i: int| 0 <= i < s.len() && s[i] == c {
        Some(choose|i: int| 0 <= i < s.len() && s[i] == c && forall|j: int| 0 <= j < i ==> s[j] != c)
    } else {
        None
    }
}

/// A text split at the first occurrence of a character: what stands before
/// it and what stands after it; `None` where the character does not occur.
pub open spec fn split_at_first(s: Seq<char>, c: char) -> Option<(Seq<char>, Seq<char>)> {
    match first_index_of(s, c) {
        Some(i) => Some((s.take(i), s.skip(i + 1))),
        None => None,
    }
}

/// `str::split_once` with a character as the delimiter: the text before its
/// first occurrence and the text after it.
#[verifier::external_body]
pub(crate) fn split_once<'a>(s: &'a str, c: char) -> (r: Option<(&'a str, &'a str)>)
    ensures
        match r {
            Some(parts) => split_at_first(s@, c) == Some((parts.0@, parts.1@)),
            None => split_at_first(s@, c) is None,
        },
{
    s.split_once(c)
}

/// A text begins with another.
pub open spec fn has_prefix(s: Seq<char>, prefix: Seq<char>) -> bool {
    prefix.len() <= s.len() && s.take(prefix.len() as int) == prefix
}

/// `str::strip_prefix` with a text as the pattern: the rest of a text that
/// begins with the prefix.
#[verifier::external_body]
pub(crate) fn strip_prefix<'a>(s: &'a str, prefix: &str) -> (r: Option<&'a str>)
    ensures
        match r {
            Some(rest) => has_prefix(s@, prefix@) && rest@ == s@.skip(prefix@.len() as int),
            None => !has_prefix(s@, prefix@),
        },
{
    s.strip_prefix(prefix)
}

/// Whether two texts are the same.
pub fn text_eq(a: &str, b: &str) -> (r: bool)
    ensures
        r == (a@ == b@),
{
    String::from_str(a) == String::from_str(b)
}

/// Whether a text begins with a character.
pub fn starts_with_char(s: &str, c: char) -> (r: bool)
    ensures
        r == (s@.len() > 0 && s@[0] == c),
{
    s.unicode_len() > 0 && s.get_char(0) == c
}

/// Whether a line is blank: nothing is left of it once the white space at
/// its ends is taken away.
pub open spec fn blank(line: Seq<char>) -> bool {
    trimmed(line).len() == 0
}

/// Whether a line is blank.
pub fn is_blank(line: &str) -> (r: bool)
    ensures
        r == blank(line@),
{
    trim(line).is_empty()
}

/// A text holds no line feed.
pub open spec fn single_line(text: Seq<char>) -> bool {
    forall|i: int| 0 <= i < text.len() ==> text[i] != '\n'
}

/// The decimal digits of a number hold no line feed.
pub proof fn lemma_decimal_single_line(n: nat)
    ensures
        single_line(decimal(n)),
        decimal(n).len() > 0,
    decreases n,
{
    if n >= 10 {
        lemma_decimal_single_line(n / 10);
    }
}

/// The line as it goes on the wire: the text and one line feed.
pub open spec fn framed(text: Seq<char>) -> Seq<char> {
    text.push('\n')
}

/// A text without a line feed, framed, holds exactly one line feed, and
/// holds it at its end.
pub proof fn lemma_framed_ends_in_one_line_feed(text: Seq<char>)
    requires
        single_line(text),
    ensures
        framed(text).last() == '\n',
        forall|i: int| 0 <= i < framed(text).len() && framed(text)[i] == '\n' ==> i == framed(
            text,
        ).len() - 1,
{
}

/// Frames a line for the wire: the text followed by one line feed.
pub fn frame_line(text: &str) -> (line: String)
    ensures
        line@ == framed(text@),
{
    proof {
        reveal_strlit("\n");
    }
    let line = join2(text, "\n");
    assert(line@ =~= framed(text@));
    line
}

/// Joins two texts.
pub fn join2(a: &str, b: &str) -> (s: String)
    ensures
        s@ == a@ + b@,
{
    let mut s = String::from_str(a);
    s.append(b);
    s
}

/// Joins three texts.
pub fn join3(a: &str, b: &str, c: &str) -> (s: String)
    ensures
        s@ == a@ + b@ + c@,
{
    let mut s = String::from_str(a);
    s.append(b);
    s.append(c);
    s
}

} // verus!
