//! Decimal notation of unsigned integers: how a number is written, and which
//! texts are read as one.

use vstd::prelude::*;

verus! {

/// Whether `c` is one of the ten decimal digits.
pub open spec fn is_digit(c: char) -> bool {
    '0' <= c && c <= '9'
}

/// The number that the digit `c` stands for; zero for any other character.
pub open spec fn digit_value(c: char) -> nat {
    if is_digit(c) {
        (c as u32 - '0' as u32) as nat
    } else {
        0
    }
}

/// The digit that stands for `d`.
pub open spec fn digit_char(d: nat) -> char
    recommends
        d < 10,
{
    ((48 + d) as u8) as char
}

/// `n` written in decimal, most significant digit first, without leading
/// zeros.
pub open spec fn decimal(n: nat) -> Seq<char>
    decreases n,
{
    if n < 10 {
        seq![digit_char(n)]
    } else {
        decimal(n / 10).push(digit_char(n % 10))
    }
}

/// The number that a run of digits denotes, most significant digit first.
pub open spec fn decimal_value(s: Seq<char>) -> nat
    decreases s.len(),
{
    if s.len() == 0 {
        0
    } else {
        decimal_value(s.drop_last()) * 10 + digit_value(s.last())
    }
}

/// Whether `s` is a numeral: one digit or more, and no leading zero but in
/// the numeral `0` itself.
pub open spec fn is_numeral(s: Seq<char>) -> bool {
    &&& s.len() > 0
    &&& forall|i: int| 0 <= i < s.len() ==> is_digit(#[trigger] s[i])
    &&& s.len() > 1 ==> s[0] != '0'
}

/// Whether `c` is one of the four characters that may surround a number:
/// space, tab, line feed, carriage return.
pub open spec fn is_blank(c: char) -> bool {
    c == ' ' || c == '\t' || c == '\n' || c == '\r'
}

/// How many blanks `text` starts with.
pub open spec fn leading_blanks(text: Seq<char>) -> nat
    decreases text.len(),
{
    if text.len() > 0 && is_blank(text.first()) {
        1 + leading_blanks(text.drop_first())
    } else {
        0
    }
}

/// How many blanks `text` ends with.
pub open spec fn trailing_blanks(text: Seq<char>) -> nat
    decreases text.len(),
{
    if text.len() > 0 && is_blank(text.last()) {
        1 + trailing_blanks(text.drop_last())
    } else {
        0
    }
}

/// `text` without the blanks at its two ends.
pub open spec fn trim(text: Seq<char>) -> Seq<char> {
    let from = leading_blanks(text);
    let to = text.len() - trailing_blanks(text);
    if from <= to {
        text.subrange(from as int, to)
    } else {
        Seq::empty()
    }
}

/// The number that `text` is read as: `text` is a numeral with any number of
/// blanks before and after it, and the numeral fits in 32 bits. No sign, no
/// fraction, no exponent.
pub open spec fn unsigned_of(text: Seq<char>) -> Option<u32> {
    let body = trim(text);
    if is_numeral(body) && decimal_value(body) <= u32::MAX {
        Some(decimal_value(body) as u32)
    } else {
        None
    }
}

/// The leading blanks of a text are blanks, and what follows them, if
/// anything does, is none.
pub proof fn lemma_leading_blanks(text: Seq<char>)
    ensures
        leading_blanks(text) <= text.len(),
        forall|i: int| 0 <= i < leading_blanks(text) ==> is_blank(#[trigger] text[i]),
        leading_blanks(text) < text.len() ==> !is_blank(text[leading_blanks(text) as int]),
    decreases text.len(),
{
    if text.len() > 0 && is_blank(text.first()) {
        let rest = text.drop_first();
        lemma_leading_blanks(rest);
        assert forall|i: int| 0 <= i < leading_blanks(text) implies is_blank(#[trigger] text[i]) by {
            if i > 0 {
                assert(text[i] == rest[i - 1]);
            }
        }
        if leading_blanks(text) < text.len() {
            assert(text[leading_blanks(text) as int] == rest[leading_blanks(rest) as int]);
        }
    }
}

/// The trailing blanks of a text are blanks, and what stands before them, if
/// anything does, is none.
pub proof fn lemma_trailing_blanks(text: Seq<char>)
    ensures
        trailing_blanks(text) <= text.len(),
        forall|i: int|
            text.len() - trailing_blanks(text) <= i < text.len() ==> is_blank(#[trigger] text[i]),
        trailing_blanks(text) < text.len() ==> !is_blank(
            text[text.len() - trailing_blanks(text) - 1],
        ),
    decreases text.len(),
{
    if text.len() > 0 && is_blank(text.last()) {
        let rest = text.drop_last();
        lemma_trailing_blanks(rest);
        assert forall|i: int|
            text.len() - trailing_blanks(text) <= i < text.len() implies is_blank(
            #[trigger] text[i],
        ) by {
            if i < text.len() - 1 {
                assert(text[i] == rest[i]);
            }
        }
        if trailing_blanks(text) < text.len() {
            assert(text[text.len() - trailing_blanks(text) - 1] == rest[rest.len()
                - trailing_blanks(rest) - 1]);
        }
    }
}

/// A character of `text` that is no blank stands in `trim(text)`, as far from
/// its start as the leading blanks leave it.
pub proof fn lemma_trim_keeps(text: Seq<char>, k: int)
    requires
        0 <= k < text.len(),
        !is_blank(text[k]),
    ensures
        leading_blanks(text) <= k < text.len() - trailing_blanks(text),
        trim(text) == text.subrange(
            leading_blanks(text) as int,
            text.len() - trailing_blanks(text),
        ),
        trim(text)[k - leading_blanks(text)] == text[k],
{
    lemma_leading_blanks(text);
    lemma_trailing_blanks(text);
}

/// Where the blanks at the two ends of a text stop, its trimmed form starts
/// and ends.
pub proof fn lemma_trim_is(text: Seq<char>, from: int, to: int)
    requires
        0 <= from < to <= text.len(),
        forall|i: int| 0 <= i < from ==> is_blank(#[trigger] text[i]),
        forall|i: int| to <= i < text.len() ==> is_blank(#[trigger] text[i]),
        !is_blank(text[from]),
        !is_blank(text[to - 1]),
    ensures
        trim(text) == text.subrange(from, to),
{
    lemma_leading_blanks(text);
    lemma_trailing_blanks(text);
    let a = leading_blanks(text) as int;
    let b = text.len() - trailing_blanks(text);
    if a < from {
        assert(is_blank(text[a]));
    }
    if a > from {
        assert(is_blank(text[from]));
    }
    if b > to {
        assert(is_blank(text[b - 1]));
    }
    if b < to {
        assert(is_blank(text[to - 1]));
    }
}

/// A text of blanks alone trims to nothing.
pub proof fn lemma_trim_of_blanks(text: Seq<char>)
    requires
        forall|i: int| 0 <= i < text.len() ==> is_blank(#[trigger] text[i]),
    ensures
        trim(text).len() == 0,
{
    lemma_leading_blanks(text);
    lemma_trailing_blanks(text);
}

/// A run of digits denotes no less than any of its prefixes does.
pub proof fn lemma_decimal_value_grows(s: Seq<char>, k: int)
    requires
        0 <= k <= s.len(),
    ensures
        decimal_value(s.take(k)) <= decimal_value(s),
    decreases s.len(),
{
    if k == s.len() {
        assert(s.take(k) == s);
    } else {
        let head = s.drop_last();
        lemma_decimal_value_grows(head, k);
        assert(head.take(k) == s.take(k));
    }
}

/// The decimal notation of a number is a numeral, and denotes that number.
pub proof fn lemma_decimal_denotes(n: nat)
    ensures
        is_numeral(decimal(n)),
        n > 0 ==> decimal(n)[0] != '0',
        decimal_value(decimal(n)) == n,
    decreases n,
{
    let s = decimal(n);
    if n < 10 {
        assert(s.drop_last().len() == 0);
        assert(decimal_value(s.drop_last()) == 0);
        assert(s.last() == digit_char(n));
    } else {
        lemma_decimal_denotes(n / 10);
        assert(s.drop_last() == decimal(n / 10));
        assert(s.last() == digit_char(n % 10));
        assert(s[0] == decimal(n / 10)[0]);
    }
}

/// A number that was written in decimal is read back as itself, whatever
/// blanks stand around it.
pub proof fn lemma_written_number_reads_back(n: u32, before: Seq<char>, after: Seq<char>)
    requires
        forall|i: int| 0 <= i < before.len() ==> is_blank(#[trigger] before[i]),
        forall|i: int| 0 <= i < after.len() ==> is_blank(#[trigger] after[i]),
    ensures
        unsigned_of(before + decimal(n as nat) + after) == Some(n),
{
    let body = decimal(n as nat);
    let text = before + body + after;
    let from = before.len() as int;
    let to = from + body.len();
    lemma_decimal_denotes(n as nat);
    assert(text[from] == body[0]);
    assert(text[to - 1] == body[body.len() - 1]);
    assert forall|i: int| to <= i < text.len() implies is_blank(#[trigger] text[i]) by {
        assert(text[i] == after[i - to]);
    }
    assert forall|i: int| 0 <= i < from implies is_blank(#[trigger] text[i]) by {
        assert(text[i] == before[i]);
    }
    lemma_trim_is(text, from, to);
    assert(text.subrange(from, to) == body);
}

/// Where a reader stands in a text that may hold a number.
#[derive(Clone, Copy)]
enum Place {
    /// Among the blanks before the numeral.
    Before,
    /// Inside the numeral.
    Inside,
    /// Among the blanks after the numeral.
    After,
}

/// Reads `text` as an unsigned number of 32 bits, in one pass over it.
pub fn parse_unsigned(text: &str) -> (r: Option<u32>)
    ensures
        r == unsigned_of(text@),
{
    let ghost s = text@;
    let ghost from: int = 0;
    let ghost to: int = 0;
    let mut place = Place::Before;
    let mut value: u32 = 0;
    let mut zero = false;
    for c in it: text.chars()
        invariant
            it.seq() == s,
            s == text@,
            place is Before ==> forall|j: int| 0 <= j < it.index() ==> is_blank(#[trigger] s[j]),
            !(place is Before) ==> {
                &&& 0 <= from < to <= it.index()
                &&& forall|j: int| 0 <= j < from ==> is_blank(#[trigger] s[j])
                &&& forall|j: int| to <= j < it.index() ==> is_blank(#[trigger] s[j])
                &&& is_numeral(s.subrange(from, to))
                &&& value == decimal_value(s.subrange(from, to))
                &&& zero == (s[from] == '0')
            },
            place is Inside ==> to == it.index(),
            place is After ==> to < it.index(),
    {
        let ghost i = it.index() as int;
        assert(c == s[i]);
        let blank = c == ' ' || c == '\t' || c == '\n' || c == '\r';
        let digit = '0' <= c && c <= '9';
        match place {
            Place::Before => {
                if digit {
                    value = c as u32 - '0' as u32;
                    zero = c == '0';
                    place = Place::Inside;
                    proof {
                        from = i;
                        to = i + 1;
                        let one = s.subrange(from, to);
                        assert(one.drop_last().len() == 0);
                        assert(decimal_value(one.drop_last()) == 0);
                        assert(one.last() == c);
                    }
                } else if !blank {
                    proof {
                        lemma_trim_keeps(s, i);
                    }
                    return None;
                }
            },
            Place::Inside => {
                if digit {
                    let d = c as u32 - '0' as u32;
                    if zero || value > (u32::MAX - d) / 10 {
                        proof {
                            lemma_trim_keeps(s, from);
                            lemma_trim_keeps(s, i);
                            let body = trim(s);
                            if is_numeral(body) {
                                assert(body[0] == s[from]);
                                assert(body.len() > 1);
                                let lead = body.take(i + 1 - from);
                                assert(lead == s.subrange(from, i + 1));
                                assert(lead.drop_last() == s.subrange(from, to));
                                assert(lead.last() == c);
                                lemma_decimal_value_grows(body, i + 1 - from);
                            }
                        }
                        return None;
                    }
                    value = value * 10 + d;
                    proof {
                        let longer = s.subrange(from, i + 1);
                        assert(longer.drop_last() == s.subrange(from, to));
                        assert(longer.last() == c);
                        to = i + 1;
                    }
                } else if blank {
                    place = Place::After;
                } else {
                    proof {
                        lemma_trim_keeps(s, i);
                    }
                    return None;
                }
            },
            Place::After => {
                if !blank {
                    proof {
                        lemma_trim_keeps(s, from);
                        lemma_trim_keeps(s, i);
                        let at = to - leading_blanks(s);
                        assert(trim(s)[at] == s[to]);
                    }
                    return None;
                }
            },
        }
    }
    match place {
        Place::Before => {
            proof {
                lemma_trim_of_blanks(s);
            }
            None
        },
        _ => {
            proof {
                lemma_trim_is(s, from, to);
            }
            Some(value)
        },
    }
}

/// Appends the decimal notation of `n` to `out`.
pub fn push_decimal(out: &mut String, n: u32)
    ensures
        final(out)@ == old(out)@ + decimal(n as nat),
    decreases n,
{
    if n >= 10 {
        push_decimal(out, n / 10);
    }
    out.push(((48 + n % 10) as u8) as char);
}

} // verus!
