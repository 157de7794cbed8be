//! Text as sequences of characters: trimming a line, reading a number from
//! it and writing a number in decimal.

use vstd::prelude::*;
use vstd::std_specs::iter::IteratorSpec;

verus! {

/// `String::push` of the standard library, whose documentation says that it
/// appends the given character to the end of the string. Taken on trust: the
/// string afterwards is the string before followed by `ch`.
pub assume_specification[ String::push ](s: &mut String, ch: char)
    ensures
        final(s)@ == old(s)@.push(ch),
;

/// Every character has a code point, and it fits in 32 bits.
pub proof fn lemma_code_point_fits(c: char)
    ensures
        0 <= c as int <= u32::MAX,
        c as u32 as char == c,
{
}

/// The characters of `text`, in order.
pub fn chars_of(text: &str) -> (chars: Vec<char>)
    ensures
        chars@ == text@,
{
    let mut chars: Vec<char> = Vec::new();
    for c in it: text.chars()
        invariant
            it.seq() == text@,
            chars@ == it.seq().take(it.index()),
    {
        chars.push(c);
    }
    chars
}

/// Whether `c` is white space: one of the 25 code points that Unicode gives
/// the property of that name.
pub open spec fn is_whitespace(c: char) -> bool {
    let code = c as int;
    ||| 0x09 <= code <= 0x0D
    ||| code == 0x20
    ||| code == 0x85
    ||| code == 0xA0
    ||| code == 0x1680
    ||| 0x2000 <= code <= 0x200A
    ||| code == 0x2028
    ||| code == 0x2029
    ||| code == 0x202F
    ||| code == 0x205F
    ||| code == 0x3000
}

/// `text` without the white space at its start.
pub open spec fn trim_start(text: Seq<char>) -> Seq<char>
    decreases text.len(),
{
    if text.len() > 0 && is_whitespace(text.first()) {
        trim_start(text.drop_first())
    } else {
        text
    }
}

/// `text` without the white space at its end.
pub open spec fn trim_end(text: Seq<char>) -> Seq<char>
    decreases text.len(),
{
    if text.len() > 0 && is_whitespace(text.last()) {
        trim_end(text.drop_last())
    } else {
        text
    }
}

/// `text` without the white space at either end.
pub open spec fn trimmed(text: Seq<char>) -> Seq<char> {
    trim_end(trim_start(text))
}

/// Whether `c` is one of the digits `0` to `9`.
pub open spec fn is_digit(c: char) -> bool {
    '0' <= c <= '9'
}

/// The value of the digit `c`.
pub open spec fn digit_value(c: char) -> nat {
    (c as int - '0' as int) as nat
}

/// The digit that stands for `value`, which is below ten.
pub open spec fn digit_char(value: nat) -> char {
    ('0' as int + value) as char
}

/// Whether `text` holds digits only.
pub open spec fn all_digits(text: Seq<char>) -> bool {
    forall|i: int| 0 <= i < text.len() ==> is_digit(#[trigger] text[i])
}

/// The number that the digits `text` write in decimal; the empty text writes 0.
pub open spec fn number(text: Seq<char>) -> nat
    decreases text.len(),
{
    if text.len() == 0 {
        0
    } else {
        10 * number(text.drop_last()) + digit_value(text.last())
    }
}

/// `text` without a plus sign at its start.
pub open spec fn unsigned(text: Seq<char>) -> Seq<char> {
    if text.len() > 0 && text.first() == '+' {
        text.drop_first()
    } else {
        text
    }
}

/// The number that `text` stands for: white space at both ends is ignored,
/// one plus sign may come first, and then at least one digit must follow
/// and nothing else. `None` if `text` is not of that form or the number
/// exceeds `u32::MAX`.
pub open spec fn parsed_u32(text: Seq<char>) -> Option<u32> {
    let digits = unsigned(trimmed(text));
    if digits.len() > 0 && all_digits(digits) && number(digits) <= u32::MAX {
        Some(number(digits) as u32)
    } else {
        None
    }
}

/// `value` written in decimal, without leading zeros.
pub open spec fn decimal(value: nat) -> Seq<char>
    decreases value,
{
    if value < 10 {
        seq![digit_char(value)]
    } else {
        decimal(value / 10).push(digit_char(value % 10))
    }
}

/// Tells whether `c` is white space.
pub fn whitespace(c: char) -> (space: bool)
    ensures
        space == is_whitespace(c),
{
    ('\u{9}' <= c && c <= '\u{D}') || c == ' ' || c == '\u{85}' || c == '\u{A0}' || c
        == '\u{1680}' || ('\u{2000}' <= c && c <= '\u{200A}') || c == '\u{2028}' || c
        == '\u{2029}' || c == '\u{202F}' || c == '\u{205F}' || c == '\u{3000}'
}

/// A longer run of digits writes no smaller number than its beginning.
pub proof fn lemma_number_prefix(text: Seq<char>, len: int)
    requires
        0 <= len <= text.len(),
        all_digits(text),
    ensures
        number(text.take(len)) <= number(text),
    decreases text.len(),
{
    if len < text.len() {
        assert(text.drop_last().take(len) =~= text.take(len));
        lemma_number_prefix(text.drop_last(), len);
    } else {
        assert(text.take(len) =~= text);
    }
}

/// Reads the leading and trailing white space off `text` and the number in
/// between, see [`parsed_u32`].
pub fn parse_u32(text: &str) -> (value: Option<u32>)
    ensures
        value == parsed_u32(text@),
{
    let chars = chars_of(text);
    let n: usize = chars.len();
    let mut start: usize = 0;
    assert(chars@.skip(0) =~= chars@);
    while start < n && whitespace(chars[start])
        invariant
            start <= n,
            n == chars@.len(),
            trim_start(chars@) == trim_start(chars@.skip(start as int)),
        decreases n - start,
    {
        assert(chars@.skip(start as int).drop_first() =~= chars@.skip(start + 1));
        start += 1;
    }
    let ghost tail = chars@.skip(start as int);
    assert(trim_start(chars@) == tail);
    let mut end: usize = n;
    assert(tail.take(n - start) =~= tail);
    while end > start && whitespace(chars[end - 1])
        invariant
            start <= end <= n,
            n == chars@.len(),
            tail == chars@.skip(start as int),
            trim_end(tail) == trim_end(tail.take(end - start)),
        decreases end,
    {
        assert(tail.take(end - start).drop_last() =~= tail.take(end - start - 1));
        end -= 1;
    }
    let ghost core = chars@.subrange(start as int, end as int);
    assert(tail.take(end - start) =~= core);
    assert(trimmed(text@) == core);
    let mut at: usize = start;
    if at < end && chars[at] == '+' {
        at += 1;
    }
    let ghost first = at;
    let ghost digits = chars@.subrange(first as int, end as int);
    assert(unsigned(core) =~= digits);
    if at == end {
        return None;
    }
    let mut total: u32 = 0;
    while at < end
        invariant
            first <= at <= end <= n,
            n == chars@.len(),
            digits == chars@.subrange(first as int, end as int),
            digits == unsigned(trimmed(text@)),
            all_digits(digits.take(at - first)),
            total == number(digits.take(at - first)),
        decreases end - at,
    {
        let c: char = chars[at];
        let ghost seen = digits.take(at - first);
        let ghost next = digits.take(at - first + 1);
        assert(next.drop_last() =~= seen);
        assert(next.last() == c);
        if !('0' <= c && c <= '9') {
            assert(!is_digit(digits[at - first]));
            return None;
        }
        proof {
            lemma_code_point_fits(c);
        }
        let digit: u32 = c as u32 - '0' as u32;
        assert(digit == digit_value(c));
        assert(all_digits(next));
        let grown: Option<u32> = match total.checked_mul(10) {
            Some(tens) => tens.checked_add(digit),
            None => None,
        };
        match grown {
            Some(sum) => {
                total = sum;
            },
            None => {
                assert(number(next) > u32::MAX);
                proof {
                    if all_digits(digits) {
                        lemma_number_prefix(digits, at - first + 1);
                    }
                }
                return None;
            },
        }
        at += 1;
    }
    assert(digits.take(end - first) =~= digits);
    Some(total)
}

/// Appends `value`, written in decimal, to `out`.
pub fn push_decimal(out: &mut String, value: u32)
    ensures
        final(out)@ == old(out)@ + decimal(value as nat),
    decreases value,
{
    if value >= 10 {
        push_decimal(out, value / 10);
    }
    let digit: u8 = (value % 10) as u8;
    let glyph: char = (48u8 + digit) as char;
    assert(glyph == digit_char((value % 10) as nat));
    out.push(glyph);
    assert(out@ =~= old(out)@ + decimal(value as nat));
}

} // verus!
