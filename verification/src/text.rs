//! Reading what was typed into a text field: trimming it, and reading a
//! sticker number out of it.

use vstd::prelude::*;
use vstd::string::StrSliceExecFns;

verus! {

/// Whether `c` is white space: one of the 25 characters that Unicode gives
/// the property `White_Space`.
pub open spec fn is_blank(c: char) -> bool {
    let code = c as u32;
    ||| 0x09 <= code <= 0x0D
    ||| code == 0x20
    ||| code == 0x85
    ||| code == 0xA0
    ||| code == 0x1680
    ||| 0x2000 <= code <= 0x200A
    ||| code == 0x2028
    ||| code == 0x2029
    ||| code == 0x202F
    ||| code == 0x205F
    ||| code == 0x3000
}

/// Whether `c` is white space.
pub fn is_white_space(c: char) -> (blank: bool)
    ensures
        blank == is_blank(c),
{
    let code: u32 = c as u32;
    (0x09 <= code && code <= 0x0D) || code == 0x20 || code == 0x85 || code == 0xA0 || code
        == 0x1680 || (0x2000 <= code && code <= 0x200A) || code == 0x2028 || code == 0x2029
        || code == 0x202F || code == 0x205F || code == 0x3000
}

/// The position of the first character at or after `from` that is not white
/// space, or the length of `s` where there is none.
pub open spec fn first_solid(s: Seq<char>, from: int) -> int
    decreases s.len() - from,
{
    if from < 0 || from >= s.len() {
        s.len() as int
    } else if !is_blank(s[from]) {
        from
    } else {
        first_solid(s, from + 1)
    }
}

/// The position just behind the last character before `upto` that is not
/// white space, or 0 where there is none.
pub open spec fn solid_end(s: Seq<char>, upto: int) -> int
    decreases upto,
{
    if upto <= 0 || upto > s.len() {
        0
    } else if !is_blank(s[upto - 1]) {
        upto
    } else {
        solid_end(s, upto - 1)
    }
}

/// `s` without the white space at its two ends.
pub open spec fn trimmed(s: Seq<char>) -> Seq<char> {
    let start = first_solid(s, 0);
    let end = solid_end(s, s.len() as int);
    if start < end {
        s.subrange(start, end)
    } else {
        Seq::empty()
    }
}

/// Whether `c` is one of the ten decimal digits.
pub open spec fn is_digit(c: char) -> bool {
    '0' as u32 <= c as u32 <= '9' as u32
}

/// The number that the digit `c` stands for.
pub open spec fn digit_value(c: char) -> nat {
    (c as u32 - '0' as u32) as nat
}

/// Whether `s` holds decimal digits and nothing else.
pub open spec fn all_digits(s: Seq<char>) -> bool {
    forall|i: int| 0 <= i < s.len() ==> is_digit(#[trigger] s[i])
}

/// The number that the digits of `s` spell in base ten.
pub open spec fn decimal_value(s: Seq<char>) -> nat
    decreases s.len(),
{
    if s.len() == 0 {
        0
    } else {
        decimal_value(s.drop_last()) * 10 + digit_value(s.last())
    }
}

/// `s` without a leading plus sign.
pub open spec fn unsigned_part(s: Seq<char>) -> Seq<char> {
    if s.len() > 0 && s[0] == '+' {
        s.drop_first()
    } else {
        s
    }
}

/// The sticker number that `s` spells: an optional plus sign, then one or
/// more decimal digits whose value fits 32 bits. Anything else spells none.
pub open spec fn parsed_number(s: Seq<char>) -> Option<u32> {
    let digits = unsigned_part(s);
    if digits.len() > 0 && all_digits(digits) && decimal_value(digits) <= u32::MAX {
        Some(decimal_value(digits) as u32)
    } else {
        None
    }
}

/// A number never shrinks when digits are written behind it.
pub proof fn lemma_prefix_value(s: Seq<char>, k: int)
    requires
        0 <= k <= s.len(),
    ensures
        decimal_value(s.take(k)) <= decimal_value(s),
    decreases s.len(),
{
    if k == s.len() {
        assert(s.take(k) =~= s);
    } else {
        assert(s.drop_last().take(k) =~= s.take(k));
        lemma_prefix_value(s.drop_last(), k);
    }
}

/// What `first_solid` finds: white space before it, none at it.
pub proof fn lemma_first_solid(s: Seq<char>, from: int)
    requires
        0 <= from <= s.len(),
    ensures
        from <= first_solid(s, from) <= s.len(),
        forall|i: int| from <= i < first_solid(s, from) ==> is_blank(#[trigger] s[i]),
        first_solid(s, from) < s.len() ==> !is_blank(s[first_solid(s, from)]),
    decreases s.len() - from,
{
    if from < s.len() && is_blank(s[from]) {
        lemma_first_solid(s, from + 1);
    }
}

/// What `solid_end` finds: white space behind it, none just before it.
pub proof fn lemma_solid_end(s: Seq<char>, upto: int)
    requires
        0 <= upto <= s.len(),
    ensures
        0 <= solid_end(s, upto) <= upto,
        forall|i: int| solid_end(s, upto) <= i < upto ==> is_blank(#[trigger] s[i]),
        solid_end(s, upto) > 0 ==> !is_blank(s[solid_end(s, upto) - 1]),
    decreases upto,
{
    if upto > 0 && is_blank(s[upto - 1]) {
        lemma_solid_end(s, upto - 1);
    }
}

/// What trimming does: it cuts white space, and nothing else, from the two
/// ends, until a character that is no white space stands at each end.
pub proof fn lemma_trimmed(s: Seq<char>)
    ensures
        ({
            let start = first_solid(s, 0);
            let end = start + trimmed(s).len();
            &&& 0 <= start <= end <= s.len()
            &&& trimmed(s) == s.subrange(start, end)
            &&& forall|i: int| 0 <= i < start ==> is_blank(#[trigger] s[i])
            &&& forall|i: int| end <= i < s.len() ==> is_blank(#[trigger] s[i])
        }),
        trimmed(s).len() > 0 ==> !is_blank(trimmed(s).first()) && !is_blank(trimmed(s).last()),
{
    lemma_first_solid(s, 0);
    lemma_solid_end(s, s.len() as int);
    let start = first_solid(s, 0);
    if start >= solid_end(s, s.len() as int) {
        assert(trimmed(s) =~= s.subrange(start, start));
    }
}

/// Text with no white space at either end is its own trimming.
pub proof fn lemma_trimmed_solid(s: Seq<char>)
    requires
        s.len() > 0 ==> !is_blank(s.first()) && !is_blank(s.last()),
    ensures
        trimmed(s) == s,
{
    if s.len() > 0 {
        assert(s.subrange(0, s.len() as int) =~= s);
    }
}

/// Trimming twice is trimming once.
pub proof fn lemma_trimmed_twice(s: Seq<char>)
    ensures
        trimmed(trimmed(s)) == trimmed(s),
{
    lemma_trimmed(s);
    lemma_trimmed_solid(trimmed(s));
}

/// Text that spells a number has no white space to trim.
pub proof fn lemma_number_is_solid(s: Seq<char>)
    requires
        parsed_number(s) is Some,
    ensures
        trimmed(s) == s,
{
    let digits = unsigned_part(s);
    assert(is_digit(digits[0]));
    assert(is_digit(digits[digits.len() - 1]));
    lemma_trimmed_solid(s);
}

/// `text` without the white space at its two ends.
pub fn trim<'a>(text: &'a str) -> (r: &'a str)
    ensures
        r@ == trimmed(text@),
{
    let n = text.unicode_len();
    let mut start: usize = 0;
    while start < n && is_white_space(text.get_char(start))
        invariant
            start <= n == text@.len(),
            first_solid(text@, 0) == first_solid(text@, start as int),
        decreases n - start,
    {
        start = start + 1;
    }
    let mut end: usize = n;
    while end > start && is_white_space(text.get_char(end - 1))
        invariant
            start <= end <= n == text@.len(),
            solid_end(text@, n as int) == solid_end(text@, end as int),
        decreases end,
    {
        end = end - 1;
    }
    proof {
        lemma_solid_end(text@, end as int);
        assert(first_solid(text@, 0) == start);
        assert(end > start ==> solid_end(text@, n as int) == end);
        assert(end == start ==> text@.subrange(start as int, end as int) =~= Seq::empty());
    }
    text.substring_char(start, end)
}

/// Reads a sticker number: an optional plus sign, then decimal digits, with
/// no room for anything else and no value beyond 32 bits.
pub fn parse_number(text: &str) -> (r: Option<u32>)
    ensures
        r == parsed_number(text@),
{
    let n = text.unicode_len();
    let start: usize = if n > 0 && text.get_char(0) == '+' {
        1
    } else {
        0
    };
    if start == n {
        return None;
    }
    let ghost digits = unsigned_part(text@);
    assert(digits =~= text@.subrange(start as int, n as int));
    let mut value: u32 = 0;
    let mut i: usize = start;
    while i < n
        invariant
            start <= i <= n == text@.len(),
            digits == unsigned_part(text@),
            digits == text@.subrange(start as int, n as int),
            all_digits(digits.take(i - start)),
            value == decimal_value(digits.take(i - start)),
        decreases n - i,
    {
        let c = text.get_char(i);
        let ghost seen = digits.take(i - start + 1);
        proof {
            assert(seen.drop_last() =~= digits.take(i - start));
            assert(seen.last() == c);
        }
        if !(c >= '0' && c <= '9') {
            assert(!is_digit(digits[i - start]));
            return None;
        }
        let digit: u32 = c as u32 - '0' as u32;
        if value > (u32::MAX - digit) / 10 {
            proof {
                assert(decimal_value(seen) > u32::MAX);
                if all_digits(digits) {
                    lemma_prefix_value(digits, i - start + 1);
                }
            }
            return None;
        }
        value = value * 10 + digit;
        i = i + 1;
    }
    assert(digits.take(n - start) =~= digits);
    Some(value)
}

} // verus!
