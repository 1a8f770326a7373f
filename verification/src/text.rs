//! Text helpers.

use vstd::prelude::*;
use vstd::string::*;
use vstd::utf8::*;

verus! {

/// Tells whether two strings hold the same characters.
pub fn same_str(a: &str, b: &str) -> (res: bool)
    ensures
        res == (a@ == b@),
{
    let left = a.as_bytes();
    let right = b.as_bytes();
    proof {
        encode_utf8_decode_utf8(a@);
        encode_utf8_decode_utf8(b@);
    }
    if left.len() != right.len() {
        return false;
    }
    let mut at: usize = 0;
    while at < left.len()
        invariant
            at <= left@.len(),
            left@.len() == right@.len(),
            left@ == encode_utf8(a@),
            right@ == encode_utf8(b@),
            decode_utf8(encode_utf8(a@)) == a@,
            decode_utf8(encode_utf8(b@)) == b@,
            forall|seen: int| 0 <= seen < at ==> left@[seen] == right@[seen],
        decreases left@.len() - at,
    {
        if left[at] != right[at] {
            return false;
        }
        at += 1;
    }
    assert(left@ =~= right@);
    true
}

/// The characters of a string, in order.
pub fn chars_of(text: &str) -> (chars: Vec<char>)
    ensures
        chars@ == text@,
{
    let mut chars: Vec<char> = Vec::new();
    for c in it: text.chars()
        invariant
            it.seq() == text@,
            chars@ == it.seq().take(it.index() as int),
    {
        chars.push(c);
    }
    chars
}

/// Whether a character is white space, as Unicode's `White_Space` property
/// has it.
pub open spec fn is_whitespace(c: char) -> bool {
    let code = c as u32;
    ||| 0x09 <= code <= 0x0d
    ||| code == 0x20
    ||| code == 0x85
    ||| code == 0xa0
    ||| code == 0x1680
    ||| 0x2000 <= code <= 0x200a
    ||| code == 0x2028
    ||| code == 0x2029
    ||| code == 0x202f
    ||| code == 0x205f
    ||| code == 0x3000
}

/// The text without the white space that it starts with.
pub open spec fn trimmed_start(text: Seq<char>) -> Seq<char>
    decreases text.len(),
{
    if text.len() > 0 && is_whitespace(text[0]) {
        trimmed_start(text.drop_first())
    } else {
        text
    }
}

/// The text without the white space that it ends with.
pub open spec fn trimmed_end(text: Seq<char>) -> Seq<char>
    decreases text.len(),
{
    if text.len() > 0 && is_whitespace(text.last()) {
        trimmed_end(text.drop_last())
    } else {
        text
    }
}

/// The text without the white space around it.
pub open spec fn trimmed(text: Seq<char>) -> Seq<char> {
    trimmed_end(trimmed_start(text))
}

/// The value of a decimal digit.
pub open spec fn digit_value(c: char) -> Option<nat> {
    if 0x30 <= c as u32 <= 0x39 {
        Some((c as u32 - 0x30) as nat)
    } else {
        None
    }
}

/// The number that a non-empty run of decimal digits writes.
pub open spec fn number(digits: Seq<char>) -> Option<nat>
    decreases digits.len(),
{
    if digits.len() == 0 {
        None
    } else if digits.len() == 1 {
        digit_value(digits[0])
    } else {
        match (number(digits.drop_last()), digit_value(digits.last())) {
            (Some(high), Some(low)) => Some(10 * high + low),
            _ => None,
        }
    }
}

/// The byte that a text writes in decimal: an optional `+` and then digits
/// only, with a value of at most 255.
pub open spec fn parsed_u8(text: Seq<char>) -> Option<u8> {
    let digits = if text.len() > 0 && text[0] == '+' {
        text.drop_first()
    } else {
        text
    };
    match number(digits) {
        Some(value) if value <= 255 => Some(value as u8),
        _ => None,
    }
}

/// The character of a decimal digit.
pub open spec fn digit_char(digit: nat) -> char {
    if digit == 0 {
        '0'
    } else if digit == 1 {
        '1'
    } else if digit == 2 {
        '2'
    } else if digit == 3 {
        '3'
    } else if digit == 4 {
        '4'
    } else if digit == 5 {
        '5'
    } else if digit == 6 {
        '6'
    } else if digit == 7 {
        '7'
    } else if digit == 8 {
        '8'
    } else {
        '9'
    }
}

/// A number in decimal, without leading zeros.
pub open spec fn decimal(value: nat) -> Seq<char>
    decreases value,
{
    if value < 10 {
        seq![digit_char(value)]
    } else {
        decimal(value / 10).push(digit_char(value % 10))
    }
}

/// Tells whether a character is white space.
pub fn whitespace(c: char) -> (res: bool)
    ensures
        res == is_whitespace(c),
{
    let code: u32 = c as u32;
    (0x09 <= code && code <= 0x0d) || code == 0x20 || code == 0x85 || code == 0xa0 || code
        == 0x1680 || (0x2000 <= code && code <= 0x200a) || code == 0x2028 || code == 0x2029
        || code == 0x202f || code == 0x205f || code == 0x3000
}

proof fn lemma_trimmed_start(text: Seq<char>, start: int)
    requires
        0 <= start <= text.len(),
        forall|at: int| 0 <= at < start ==> is_whitespace(text[at]),
        start < text.len() ==> !is_whitespace(text[start]),
    ensures
        trimmed_start(text) == text.skip(start),
    decreases start,
{
    if start == 0 {
        assert(text.skip(0) == text);
    } else {
        lemma_trimmed_start(text.drop_first(), start - 1);
        assert(text.drop_first().skip(start - 1) == text.skip(start));
    }
}

proof fn lemma_trimmed_end(text: Seq<char>, end: int)
    requires
        0 <= end <= text.len(),
        forall|at: int| end <= at < text.len() ==> is_whitespace(text[at]),
        0 < end ==> !is_whitespace(text[end - 1]),
    ensures
        trimmed_end(text) == text.take(end),
    decreases text.len() - end,
{
    if end == text.len() {
        assert(text.take(end) == text);
    } else {
        lemma_trimmed_end(text.drop_last(), end);
        assert(text.drop_last().take(end) == text.take(end));
    }
}

/// The text without the white space around it.
pub fn trim(text: &str) -> (res: &str)
    ensures
        res@ == trimmed(text@),
{
    let chars = chars_of(text);
    let mut start: usize = 0;
    while start < chars.len() && whitespace(chars[start])
        invariant
            start <= chars@.len(),
            forall|at: int| 0 <= at < start ==> is_whitespace(chars@[at]),
        decreases chars@.len() - start,
    {
        start += 1;
    }
    let mut end: usize = chars.len();
    while end > start && whitespace(chars[end - 1])
        invariant
            start <= end <= chars@.len(),
            forall|at: int| end <= at < chars@.len() ==> is_whitespace(chars@[at]),
        decreases end,
    {
        end -= 1;
    }
    proof {
        lemma_trimmed_start(text@, start as int);
        let rest = text@.skip(start as int);
        assert(end > start ==> rest[end - start - 1] == text@[end - 1]);
        assert forall|at: int| end - start <= at < rest.len() implies is_whitespace(rest[at]) by {
            assert(rest[at] == text@[at + start]);
        }
        lemma_trimmed_end(rest, end - start);
        assert(rest.take(end - start) == text@.subrange(start as int, end as int));
    }
    text.substring_char(start, end)
}

/// Reads a byte written in decimal, as `str::parse::<u8>` does: an optional
/// `+`, then digits only, and a value that fits.
pub fn parse_u8(text: &str) -> (res: Option<u8>)
    ensures
        res == parsed_u8(text@),
{
    let chars = chars_of(text);
    let first: usize = if chars.len() > 0 && chars[0] == '+' {
        1
    } else {
        0
    };
    let ghost digits = text@.skip(first as int);
    if first >= chars.len() {
        return None;
    }
    let mut valid = true;
    let mut value: u32 = 0;
    let mut at: usize = first;
    while at < chars.len()
        invariant
            first <= at <= chars@.len(),
            first < chars@.len(),
            chars@ == text@,
            digits == text@.skip(first as int),
            value <= 256,
            at > first ==> (valid <==> number(digits.take(at - first)) is Some),
            at > first && valid ==> (if number(digits.take(at - first))->0 <= 255 {
                value == number(digits.take(at - first))->0
            } else {
                value == 256
            }),
            at == first ==> valid && value == 0,
        decreases chars@.len() - at,
    {
        let code: u32 = chars[at] as u32;
        proof {
            let seen = digits.take(at + 1 - first);
            assert(seen.drop_last() == digits.take(at - first));
            assert(seen.last() == chars@[at as int]);
            assert(at == first ==> seen.len() == 1 && seen[0] == chars@[at as int]);
        }
        if 0x30 <= code && code <= 0x39 {
            let digit: u32 = code - 0x30;
            if value < 256 {
                value = value * 10 + digit;
                if value > 255 {
                    value = 256;
                }
            }
        } else {
            valid = false;
        }
        at += 1;
    }
    assert(digits.take(at - first) == digits);
    assert(first == 1 ==> digits == text@.drop_first());
    assert(first == 0 ==> digits == text@);
    if valid && value <= 255 {
        Some(value as u8)
    } else {
        None
    }
}

fn digit_str(digit: u8) -> (res: &'static str)
    requires
        digit < 10,
    ensures
        res@ == seq![digit_char(digit as nat)],
{
    proof {
        reveal_strlit("0");
        reveal_strlit("1");
        reveal_strlit("2");
        reveal_strlit("3");
        reveal_strlit("4");
        reveal_strlit("5");
        reveal_strlit("6");
        reveal_strlit("7");
        reveal_strlit("8");
        reveal_strlit("9");
    }
    let res = match digit {
        0 => "0",
        1 => "1",
        2 => "2",
        3 => "3",
        4 => "4",
        5 => "5",
        6 => "6",
        7 => "7",
        8 => "8",
        _ => "9",
    };
    assert(res@ =~= seq![digit_char(digit as nat)]);
    res
}

/// Writes a byte in decimal.
pub fn decimal_u8(value: u8) -> (res: String)
    ensures
        res@ == decimal(value as nat),
{
    let mut res = String::new();
    if value >= 100 {
        res.append(digit_str(value / 100));
    }
    if value >= 10 {
        res.append(digit_str((value / 10) % 10));
    }
    res.append(digit_str(value % 10));
    proof {
        let v = value as nat;
        reveal_with_fuel(decimal, 3);
        if v >= 100 {
            assert(decimal(v) =~= seq![
                digit_char(v / 100),
                digit_char((v / 10) % 10),
                digit_char(v % 10),
            ]);
        } else if v >= 10 {
            assert(decimal(v) =~= seq![digit_char(v / 10), digit_char(v % 10)]);
        }
        assert(res@ =~= decimal(v));
    }
    res
}

/// The path that joins a part to a base: the part itself where it starts at
/// the root, else the base and the part with one `/` between them, which is
/// left out where the base is empty or ends in one.
pub open spec fn joined(base: Seq<char>, part: Seq<char>) -> Seq<char> {
    if part.len() > 0 && part[0] == '/' {
        part
    } else if base.len() > 0 && base.last() != '/' {
        base + seq!['/'] + part
    } else {
        base + part
    }
}

/// Joins a part to a base path.
pub fn join(base: &str, part: &str) -> (path: String)
    ensures
        path@ == joined(base@, part@),
{
    let first = chars_of(part);
    if first.len() > 0 && first[0] == '/' {
        return part.to_owned();
    }
    let last = chars_of(base);
    let mut path = base.to_owned();
    if last.len() > 0 && last[last.len() - 1] != '/' {
        proof {
            reveal_strlit("/");
            assert("/"@ =~= seq!['/']);
        }
        path.append("/");
    }
    path.append(part);
    path
}

} // verus!
