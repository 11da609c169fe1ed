//! Reading what the user typed: line endings, surrounding blanks, whole numbers.

use vstd::prelude::*;
use vstd::string::*;

verus! {

/// The characters of a string, in order.
pub fn chars_of(s: &str) -> (v: Vec<char>)
    ensures
        v@ == s@,
{
    let mut v: Vec<char> = Vec::new();
    for c in iter: s.chars()
        invariant
            v@ == iter.seq().take(iter.index() as int),
            iter.seq() == s@,
    {
        v.push(c);
    }
    v
}

/// A line without the line feed at its end, and without the carriage return
/// that then stands at its end. At most one of each is taken away.
pub open spec fn without_line_ending(line: Seq<char>) -> Seq<char> {
    let cut = if line.len() > 0 && line.last() == '\n' {
        line.drop_last()
    } else {
        line
    };
    if cut.len() > 0 && cut.last() == '\r' {
        cut.drop_last()
    } else {
        cut
    }
}

/// Takes the line ending off a line that was read from the terminal.
pub fn strip_line_ending<'a>(line: &'a str) -> (text: &'a str)
    ensures
        text@ == without_line_ending(line@),
{
    let chars = chars_of(line);
    let mut end: usize = chars.len();
    if end > 0 && chars[end - 1] == '\n' {
        end = end - 1;
    }
    if end > 0 && chars[end - 1] == '\r' {
        end = end - 1;
    }
    let text = line.substring_char(0, end);
    text
}

/// True of the characters that count as blank space: those with the Unicode
/// property `White_Space`.
pub open spec fn is_blank(c: char) -> bool {
    let code = c as u32;
    ||| 0x09 <= code <= 0x0D
    ||| code == 0x20
    ||| code == 0x85
    ||| code == 0xA0
    ||| code == 0x1680
    ||| 0x2000 <= code <= 0x200A
    ||| code == 0x2028
    ||| code == 0x2029
    ||| code == 0x202F
    ||| code == 0x205F
    ||| code == 0x3000
}

/// The text without the blanks at its beginning.
pub open spec fn trim_start(text: Seq<char>) -> Seq<char>
    decreases text.len(),
{
    if text.len() > 0 && is_blank(text[0]) {
        trim_start(text.drop_first())
    } else {
        text
    }
}

/// The text without the blanks at its end.
pub open spec fn trim_end(text: Seq<char>) -> Seq<char>
    decreases text.len(),
{
    if text.len() > 0 && is_blank(text.last()) {
        trim_end(text.drop_last())
    } else {
        text
    }
}

/// The text without the blanks at either end.
pub open spec fn trimmed(text: Seq<char>) -> Seq<char> {
    trim_end(trim_start(text))
}

pub fn blank(c: char) -> (yes: bool)
    ensures
        yes == is_blank(c),
{
    let code = c as u32;
    (0x09 <= code && code <= 0x0D) || code == 0x20 || code == 0x85 || code == 0xA0 || code
        == 0x1680 || (0x2000 <= code && code <= 0x200A) || code == 0x2028 || code == 0x2029 || code
        == 0x202F || code == 0x205F || code == 0x3000
}

proof fn lemma_trim_start_skips(text: Seq<char>, from: int)
    requires
        0 <= from <= text.len(),
        forall|i: int| 0 <= i < from ==> is_blank(#[trigger] text[i]),
    ensures
        trim_start(text) == trim_start(text.subrange(from, text.len() as int)),
    decreases from,
{
    if from > 0 {
        assert(text.drop_first().subrange(from - 1, text.len() - 1) =~= text.subrange(
            from,
            text.len() as int,
        ));
        lemma_trim_start_skips(text.drop_first(), from - 1);
    } else {
        assert(text.subrange(0, text.len() as int) =~= text);
    }
}

proof fn lemma_trim_end_skips(text: Seq<char>, to: int)
    requires
        0 <= to <= text.len(),
        forall|i: int| to <= i < text.len() ==> is_blank(#[trigger] text[i]),
    ensures
        trim_end(text) == trim_end(text.subrange(0, to)),
    decreases text.len() - to,
{
    if to < text.len() {
        assert(text.drop_last().subrange(0, to) =~= text.subrange(0, to));
        lemma_trim_end_skips(text.drop_last(), to);
    } else {
        assert(text.subrange(0, to) =~= text);
    }
}

/// The text without the blanks at either end.
pub fn trim<'a>(text: &'a str) -> (inner: &'a str)
    ensures
        inner@ == trimmed(text@),
{
    let chars = chars_of(text);
    let mut from: usize = 0;
    while from < chars.len() && blank(chars[from])
        invariant
            from <= chars.len(),
            forall|i: int| 0 <= i < from ==> is_blank(#[trigger] chars@[i]),
        decreases chars.len() - from,
    {
        from = from + 1;
    }
    let mut to: usize = chars.len();
    while to > from && blank(chars[to - 1])
        invariant
            from <= to <= chars.len(),
            forall|i: int| to <= i < chars.len() ==> is_blank(#[trigger] chars@[i]),
        decreases to,
    {
        to = to - 1;
    }
    proof {
        let rest = chars@.subrange(from as int, chars@.len() as int);
        lemma_trim_start_skips(chars@, from as int);
        assert forall|i: int| to - from <= i < rest.len() implies is_blank(#[trigger] rest[i]) by {}
        lemma_trim_end_skips(rest, to - from);
    }
    text.substring_char(from, to)
}

/// True of the ten decimal digits.
pub open spec fn is_digit(c: char) -> bool {
    '0' as u32 <= c as u32 <= '9' as u32
}

pub open spec fn digit_value(c: char) -> int {
    c as u32 - '0' as u32
}

/// The number that a run of decimal digits stands for.
pub open spec fn digits_value(digits: Seq<char>) -> nat
    decreases digits.len(),
{
    if digits.len() == 0 {
        0
    } else {
        (digits_value(digits.drop_last()) * 10 + digit_value(digits.last())) as nat
    }
}

pub open spec fn all_digits(digits: Seq<char>) -> bool {
    forall|i: int| 0 <= i < digits.len() ==> is_digit(#[trigger] digits[i])
}

/// The whole number that a text stands for: an optional `+` or `-`, then one or
/// more decimal digits and nothing else. `None` for every other text.
pub open spec fn integer_of(text: Seq<char>) -> Option<int> {
    let signed = text.len() > 0 && (text[0] == '-' || text[0] == '+');
    let digits = if signed {
        text.drop_first()
    } else {
        text
    };
    if digits.len() == 0 || !all_digits(digits) {
        None
    } else if signed && text[0] == '-' {
        Some(-(digits_value(digits) as int))
    } else {
        Some(digits_value(digits) as int)
    }
}

/// The whole number that a text stands for, if it has a place in `i64`.
pub open spec fn parsed_integer(text: Seq<char>) -> Option<i64> {
    match integer_of(text) {
        Some(value) => if i64::MIN <= value <= i64::MAX {
            Some(value as i64)
        } else {
            None
        },
        None => None,
    }
}

proof fn lemma_digits_value_grows(digits: Seq<char>, k: int)
    requires
        0 <= k <= digits.len(),
        all_digits(digits),
    ensures
        digits_value(digits.take(k)) <= digits_value(digits),
    decreases digits.len() - k,
{
    if k < digits.len() {
        assert(digits.take(k + 1).drop_last() =~= digits.take(k));
        lemma_digits_value_grows(digits, k + 1);
    } else {
        assert(digits.take(k) =~= digits);
    }
}

/// Reads a whole number in decimal, with or without a sign. Anything that is not
/// such a number, or that has no place in `i64`, gives `None`.
pub fn parse_integer(text: &str) -> (number: Option<i64>)
    ensures
        number == parsed_integer(text@),
{
    let chars = chars_of(text);
    let n = chars.len();
    let signed = n > 0 && (chars[0] == '-' || chars[0] == '+');
    let negative = signed && chars[0] == '-';
    let first: usize = if signed {
        1
    } else {
        0
    };
    if first == n {
        return None;
    }
    let ghost digits: Seq<char> = if signed {
        text@.drop_first()
    } else {
        text@
    };
    let limit: i128 = 9_223_372_036_854_775_808;
    let mut value: i128 = 0;
    let mut i: usize = first;
    while i < n
        invariant
            first <= i <= n,
            first < n,
            n == chars@.len(),
            chars@ == text@,
            signed == (text@.len() > 0 && (text@[0] == '-' || text@[0] == '+')),
            digits == if signed {
                text@.drop_first()
            } else {
                text@
            },
            digits == chars@.subrange(first as int, n as int),
            limit == 9_223_372_036_854_775_808,
            all_digits(digits.take(i - first)),
            value == digits_value(digits.take(i - first)),
            0 <= value <= limit,
        decreases n - i,
    {
        let code = chars[i] as u32;
        if code < 48 || code > 57 {
            return None;
        }
        proof {
            assert(digits.take(i + 1 - first).drop_last() =~= digits.take(i - first));
        }
        value = value * 10 + (code - 48) as i128;
        if value > limit {
            proof {
                if all_digits(digits) {
                    lemma_digits_value_grows(digits, i + 1 - first);
                }
            }
            return None;
        }
        i = i + 1;
    }
    assert(digits.take(n - first) =~= digits);
    if negative {
        Some((-value) as i64)
    } else if value == limit {
        None
    } else {
        Some(value as i64)
    }
}

} // verus!
