//! Classification of one raw field value into the narrowest type that
//! represents it.
//!
//! The grammar is ASCII: a boolean is `true` or `false` in any letter case;
//! an integer is an optional `-` and decimal digits whose value fits 64 signed
//! bits; a float is an optional `-`, then either digits around one `.` with an
//! optional exponent, or digits with a mandatory exponent. Everything else is
//! text.

use vstd::prelude::*;
use vstd::string::*;
use vstd::utf8::is_ascii_chars;
use crate::lattice::ColumnType;

verus! {

/// A field that is empty counts as null.
pub open spec fn spec_is_null(s: Seq<char>) -> bool {
    s.len() == 0
}

/// A decimal digit.
pub open spec fn is_digit(c: char) -> bool {
    '0' <= c <= '9'
}

/// Nothing but decimal digits, if anything.
pub open spec fn all_digits(s: Seq<char>) -> bool {
    forall|i: int| 0 <= i < s.len() ==> is_digit(#[trigger] s[i])
}

/// One or more decimal digits.
pub open spec fn is_number(s: Seq<char>) -> bool {
    s.len() > 0 && all_digits(s)
}

/// `s` starts with `-`.
pub open spec fn has_minus(s: Seq<char>) -> bool {
    s.len() > 0 && s[0] == '-'
}

/// `s` without its leading `-`, if it has one.
pub open spec fn unsigned_part(s: Seq<char>) -> Seq<char> {
    if has_minus(s) {
        s.skip(1)
    } else {
        s
    }
}

/// `s` without its leading `-` or `+`, if it has one.
pub open spec fn unsigned_exponent(s: Seq<char>) -> Seq<char> {
    if s.len() > 0 && (s[0] == '-' || s[0] == '+') {
        s.skip(1)
    } else {
        s
    }
}

/// The number that a decimal digit denotes.
pub open spec fn digit_value(c: char) -> nat {
    (c as u32 - '0' as u32) as nat
}

/// The number that a string of decimal digits denotes.
pub open spec fn digits_value(s: Seq<char>) -> nat
    decreases s.len(),
{
    if s.len() == 0 {
        0
    } else {
        digits_value(s.drop_last()) * 10 + digit_value(s.last())
    }
}

/// The largest magnitude that fits 64 signed bits with the given sign.
pub open spec fn magnitude_limit(negative: bool) -> nat {
    if negative {
        9223372036854775808
    } else {
        9223372036854775807
    }
}

/// `s` spells a word letter by letter, each letter in either case.
pub open spec fn is_word(s: Seq<char>, lower: Seq<char>, upper: Seq<char>) -> bool {
    s.len() == lower.len() && forall|i: int|
        0 <= i < s.len() ==> #[trigger] s[i] == lower[i] || s[i] == upper[i]
}

/// `true` or `false`, in any letter case.
pub open spec fn is_boolean_text(s: Seq<char>) -> bool {
    ||| is_word(s, seq!['t', 'r', 'u', 'e'], seq!['T', 'R', 'U', 'E'])
    ||| is_word(s, seq!['f', 'a', 'l', 's', 'e'], seq!['F', 'A', 'L', 'S', 'E'])
}

/// An optional `-` and one or more digits, the value within 64 signed bits.
pub open spec fn is_integer_text(s: Seq<char>) -> bool {
    is_number(unsigned_part(s)) && digits_value(unsigned_part(s)) <= magnitude_limit(
        has_minus(s),
    )
}

/// Index of the first `a` or `b` in `s`, or the length of `s` without one.
pub open spec fn first_of(s: Seq<char>, a: char, b: char) -> int
    decreases s.len(),
{
    if s.len() == 0 {
        0
    } else if s[0] == a || s[0] == b {
        0
    } else {
        1 + first_of(s.drop_first(), a, b)
    }
}

/// Digits around exactly one `.`, with a digit on at least one side.
pub open spec fn is_fraction(s: Seq<char>) -> bool {
    let dot = first_of(s, '.', '.');
    dot < s.len() && s.len() >= 2 && all_digits(s.take(dot)) && all_digits(s.skip(dot + 1))
}

/// `e` or `E`, an optional sign, and one or more digits.
pub open spec fn is_exponent(s: Seq<char>) -> bool {
    s.len() > 0 && (s[0] == 'e' || s[0] == 'E') && is_number(unsigned_exponent(s.skip(1)))
}

/// A fraction with an optional exponent, or a number with an exponent.
pub open spec fn is_unsigned_float(body: Seq<char>) -> bool {
    let mark = first_of(body, 'e', 'E');
    let mantissa = body.take(mark);
    let exponent = body.skip(mark);
    ||| is_fraction(mantissa) && (exponent.len() == 0 || is_exponent(exponent))
    ||| is_number(mantissa) && is_exponent(exponent)
}

/// An optional `-`, then a fraction with an optional exponent, or a number
/// with an exponent.
pub open spec fn is_float_text(s: Seq<char>) -> bool {
    is_unsigned_float(unsigned_part(s))
}

/// The narrowest type that represents `s`.
pub open spec fn spec_classify(s: Seq<char>) -> ColumnType {
    if is_boolean_text(s) {
        ColumnType::Boolean
    } else if is_integer_text(s) {
        ColumnType::Integer
    } else if is_float_text(s) {
        ColumnType::Float
    } else {
        ColumnType::Text
    }
}

/// Appending a digit multiplies the value by ten and adds the digit.
pub proof fn digits_value_step(s: Seq<char>, i: int)
    requires
        0 <= i < s.len(),
    ensures
        digits_value(s.take(i + 1)) == digits_value(s.take(i)) * 10 + digit_value(s[i]),
{
    assert(s.take(i + 1).drop_last() =~= s.take(i));
}

/// A prefix of a digit string denotes no more than the whole string.
pub proof fn digits_value_grows(s: Seq<char>, i: int)
    requires
        0 <= i <= s.len(),
    ensures
        digits_value(s.take(i)) <= digits_value(s),
    decreases s.len() - i,
{
    if i < s.len() {
        digits_value_step(s, i);
        digits_value_grows(s, i + 1);
    } else {
        assert(s.take(i) =~= s);
    }
}

/// The first `a` or `b` of `s` is at `at`, where nothing before `at` is one
/// and `at` is one or the end.
pub proof fn first_of_is(s: Seq<char>, a: char, b: char, at: int)
    requires
        0 <= at <= s.len(),
        forall|i: int| 0 <= i < at ==> s[i] != a && s[i] != b,
        at < s.len() ==> s[at] == a || s[at] == b,
    ensures
        first_of(s, a, b) == at,
    decreases s.len(),
{
    if s.len() > 0 && at > 0 {
        let rest = s.drop_first();
        assert forall|i: int| 0 <= i < at - 1 implies rest[i] != a && rest[i] != b by {
            assert(rest[i] == s[i + 1]);
        }
        first_of_is(rest, a, b, at - 1);
    }
}

/// `first_of` stays within the string and, short of its end, points at an
/// `a` or a `b`.
pub proof fn first_of_bounds(s: Seq<char>, a: char, b: char)
    ensures
        0 <= first_of(s, a, b) <= s.len(),
        first_of(s, a, b) < s.len() ==> s[first_of(s, a, b)] == a || s[first_of(s, a, b)] == b,
    decreases s.len(),
{
    if s.len() > 0 && !(s[0] == a || s[0] == b) {
        first_of_bounds(s.drop_first(), a, b);
    }
}

/// A null field has no type of its own: the grammar gives it `Text`, and
/// inference does not ask.
pub proof fn null_is_text(s: Seq<char>)
    requires
        spec_is_null(s),
    ensures
        spec_classify(s) == ColumnType::Text,
{
    first_of_bounds(s, 'e', 'E');
}

/// A string of digits is ASCII.
proof fn digits_are_ascii(s: Seq<char>)
    requires
        all_digits(s),
    ensures
        is_ascii_chars(s),
{
    assert forall|i: int| 0 <= i < s.len() implies '\0' <= #[trigger] s[i] <= '\u{7f}' by {
        assert(is_digit(s[i]));
    }
}

/// A string is ASCII where all of it but one ASCII character in front is.
proof fn ascii_after_first(s: Seq<char>)
    requires
        s.len() > 0,
        '\0' <= s[0] <= '\u{7f}',
        is_ascii_chars(s.skip(1)),
    ensures
        is_ascii_chars(s),
{
    assert forall|i: int| 0 <= i < s.len() implies '\0' <= #[trigger] s[i] <= '\u{7f}' by {
        if i > 0 {
            assert(s[i] == s.skip(1)[i - 1]);
        }
    }
}

/// A string is ASCII where both sides of a cut are.
proof fn ascii_of_parts(s: Seq<char>, at: int)
    requires
        0 <= at <= s.len(),
        is_ascii_chars(s.take(at)),
        is_ascii_chars(s.skip(at)),
    ensures
        is_ascii_chars(s),
{
    assert forall|i: int| 0 <= i < s.len() implies '\0' <= #[trigger] s[i] <= '\u{7f}' by {
        if i < at {
            assert(s[i] == s.take(at)[i]);
        } else {
            assert(s[i] == s.skip(at)[i - at]);
        }
    }
}

/// An exponent is ASCII.
proof fn exponent_is_ascii(s: Seq<char>)
    requires
        is_exponent(s),
    ensures
        is_ascii_chars(s),
{
    let tail = s.skip(1);
    digits_are_ascii(unsigned_exponent(tail));
    if tail.len() > 0 && (tail[0] == '-' || tail[0] == '+') {
        ascii_after_first(tail);
    }
    ascii_after_first(s);
}

/// A fraction is ASCII.
proof fn fraction_is_ascii(s: Seq<char>)
    requires
        is_fraction(s),
    ensures
        is_ascii_chars(s),
{
    let dot = first_of(s, '.', '.');
    first_of_bounds(s, '.', '.');
    digits_are_ascii(s.take(dot));
    digits_are_ascii(s.skip(dot + 1));
    assert(s.skip(dot).skip(1) =~= s.skip(dot + 1));
    ascii_after_first(s.skip(dot));
    ascii_of_parts(s, dot);
}

/// Every value that the grammar gives a type other than text is ASCII.
pub proof fn typed_text_is_ascii(s: Seq<char>)
    requires
        spec_classify(s) != ColumnType::Text,
    ensures
        is_ascii_chars(s),
{
    if is_boolean_text(s) {
        assert forall|i: int| 0 <= i < s.len() implies '\0' <= #[trigger] s[i] <= '\u{7f}' by {
            assert(i == 0 || i == 1 || i == 2 || i == 3 || i == 4);
        }
    } else {
        let body = unsigned_part(s);
        if is_integer_text(s) {
            digits_are_ascii(body);
        } else {
            let mark = first_of(body, 'e', 'E');
            first_of_bounds(body, 'e', 'E');
            if is_fraction(body.take(mark)) {
                fraction_is_ascii(body.take(mark));
            } else {
                digits_are_ascii(body.take(mark));
            }
            if body.skip(mark).len() > 0 {
                exponent_is_ascii(body.skip(mark));
            }
            ascii_of_parts(body, mark);
        }
        if has_minus(s) {
            ascii_after_first(s);
        }
    }
}

/// The character at `i` of an ASCII string, in constant time.
fn char_at(s: &str, i: usize) -> (c: char)
    requires
        is_ascii_chars(s@),
        i < s@.len(),
    ensures
        c == s@[i as int],
{
    let b: u8 = s.get_ascii(i);
    b as char
}

/// Whether `s[lo..hi]` holds digits only.
fn digits_between(s: &str, lo: usize, hi: usize) -> (out: bool)
    requires
        is_ascii_chars(s@),
        lo <= hi <= s@.len(),
    ensures
        out == all_digits(s@.subrange(lo as int, hi as int)),
{
    let ghost part = s@.subrange(lo as int, hi as int);
    let mut i: usize = lo;
    while i < hi
        invariant
            is_ascii_chars(s@),
            lo <= i <= hi <= s@.len(),
            part == s@.subrange(lo as int, hi as int),
            forall|k: int| 0 <= k < i - lo ==> is_digit(#[trigger] part[k]),
        decreases hi - i,
    {
        let c = char_at(s, i);
        assert(part[i - lo] == c);
        if !(c >= '0' && c <= '9') {
            return false;
        }
        i += 1;
    }
    true
}

/// Index of the first `a` or `b` in `s[lo..hi]`, or `hi` without one.
fn find_between(s: &str, lo: usize, hi: usize, a: char, b: char) -> (at: usize)
    requires
        is_ascii_chars(s@),
        lo <= hi <= s@.len(),
    ensures
        lo <= at <= hi,
        at - lo == first_of(s@.subrange(lo as int, hi as int), a, b),
{
    let ghost part = s@.subrange(lo as int, hi as int);
    let mut i: usize = lo;
    while i < hi
        invariant
            is_ascii_chars(s@),
            lo <= i <= hi <= s@.len(),
            part == s@.subrange(lo as int, hi as int),
            forall|k: int| 0 <= k < i - lo ==> part[k] != a && part[k] != b,
        decreases hi - i,
    {
        let c = char_at(s, i);
        assert(part[i - lo] == c);
        if c == a || c == b {
            proof {
                first_of_is(part, a, b, i - lo);
            }
            return i;
        }
        i += 1;
    }
    proof {
        first_of_is(part, a, b, hi - lo);
    }
    hi
}

/// Whether `s[i]` is one of the two forms of a letter.
fn letter_at(s: &str, i: usize, lower: char, upper: char) -> (out: bool)
    requires
        is_ascii_chars(s@),
        i < s@.len(),
    ensures
        out == (s@[i as int] == lower || s@[i as int] == upper),
{
    let x = char_at(s, i);
    x == lower || x == upper
}

/// Whether the ASCII string `s` of length `n` is a boolean token.
fn boolean_text(s: &str, n: usize) -> (out: bool)
    requires
        is_ascii_chars(s@),
        n == s@.len(),
    ensures
        out == is_boolean_text(s@),
{
    if n == 4 {
        letter_at(s, 0, 't', 'T') && letter_at(s, 1, 'r', 'R') && letter_at(s, 2, 'u', 'U')
            && letter_at(s, 3, 'e', 'E')
    } else if n == 5 {
        letter_at(s, 0, 'f', 'F') && letter_at(s, 1, 'a', 'A') && letter_at(s, 2, 'l', 'L')
            && letter_at(s, 3, 's', 'S') && letter_at(s, 4, 'e', 'E')
    } else {
        false
    }
}

/// Whether the digits `s[lo..hi]` denote a magnitude that fits 64 signed
/// bits with the given sign.
fn magnitude_fits(s: &str, lo: usize, hi: usize, negative: bool) -> (out: bool)
    requires
        is_ascii_chars(s@),
        lo <= hi <= s@.len(),
        all_digits(s@.subrange(lo as int, hi as int)),
    ensures
        out == (digits_value(s@.subrange(lo as int, hi as int)) <= magnitude_limit(negative)),
{
    let ghost part = s@.subrange(lo as int, hi as int);
    let limit: u64 = if negative {
        9223372036854775808
    } else {
        9223372036854775807
    };
    let mut acc: u64 = 0;
    let mut i: usize = lo;
    assert(part.take(0).len() == 0);
    while i < hi
        invariant
            is_ascii_chars(s@),
            lo <= i <= hi <= s@.len(),
            part == s@.subrange(lo as int, hi as int),
            all_digits(part),
            limit == magnitude_limit(negative),
            acc == digits_value(part.take(i - lo)),
            acc <= limit,
        decreases hi - i,
    {
        let c = char_at(s, i);
        assert(part[i - lo] == c);
        assert(is_digit(part[i - lo]));
        let d: u64 = (c as u32 - '0' as u32) as u64;
        proof {
            digits_value_step(part, i - lo);
        }
        if acc > (limit - d) / 10 {
            proof {
                digits_value_grows(part, i - lo + 1);
            }
            return false;
        }
        acc = acc * 10 + d;
        i += 1;
    }
    assert(part.take(hi - lo) =~= part);
    true
}

/// Whether `s[lo..hi]` is an exponent.
fn exponent_between(s: &str, lo: usize, hi: usize) -> (out: bool)
    requires
        is_ascii_chars(s@),
        lo <= hi <= s@.len(),
    ensures
        out == is_exponent(s@.subrange(lo as int, hi as int)),
{
    let ghost part = s@.subrange(lo as int, hi as int);
    if lo == hi {
        return false;
    }
    let mark = char_at(s, lo);
    assert(part[0] == mark);
    if !(mark == 'e' || mark == 'E') {
        return false;
    }
    let from: usize = lo + 1;
    let ghost tail = part.skip(1);
    assert(tail =~= s@.subrange(from as int, hi as int));
    if from == hi {
        return false;
    }
    let sign = char_at(s, from);
    assert(tail[0] == sign);
    let digits: usize = if sign == '-' || sign == '+' {
        from + 1
    } else {
        from
    };
    assert(unsigned_exponent(tail) =~= s@.subrange(digits as int, hi as int));
    digits < hi && digits_between(s, digits, hi)
}

/// Whether `s[lo..hi]` is a fraction.
fn fraction_between(s: &str, lo: usize, hi: usize) -> (out: bool)
    requires
        is_ascii_chars(s@),
        lo <= hi <= s@.len(),
    ensures
        out == is_fraction(s@.subrange(lo as int, hi as int)),
{
    let ghost part = s@.subrange(lo as int, hi as int);
    let dot = find_between(s, lo, hi, '.', '.');
    if dot == hi || hi - lo < 2 {
        return false;
    }
    assert(part.take(dot - lo) =~= s@.subrange(lo as int, dot as int));
    assert(part.skip(dot - lo + 1) =~= s@.subrange(dot + 1, hi as int));
    digits_between(s, lo, dot) && digits_between(s, dot + 1, hi)
}

/// Whether `s[lo..hi]` is a float without its sign.
fn unsigned_float_between(s: &str, lo: usize, hi: usize) -> (out: bool)
    requires
        is_ascii_chars(s@),
        lo <= hi <= s@.len(),
    ensures
        out == is_unsigned_float(s@.subrange(lo as int, hi as int)),
{
    let ghost body = s@.subrange(lo as int, hi as int);
    let mark = find_between(s, lo, hi, 'e', 'E');
    assert(body.take(mark - lo) =~= s@.subrange(lo as int, mark as int));
    assert(body.skip(mark - lo) =~= s@.subrange(mark as int, hi as int));
    let exponent = exponent_between(s, mark, hi);
    if fraction_between(s, lo, mark) && (mark == hi || exponent) {
        return true;
    }
    exponent && lo < mark && digits_between(s, lo, mark)
}

/// Whether a field counts as null: it is empty.
pub fn is_null(value: &str) -> (out: bool)
    ensures
        out == spec_is_null(value@),
{
    value.is_empty()
}

/// Classifies one field value into the narrowest type that represents it.
pub fn classify(value: &str) -> (out: ColumnType)
    ensures
        out == spec_classify(value@),
{
    if !value.is_ascii() {
        proof {
            if spec_classify(value@) != ColumnType::Text {
                typed_text_is_ascii(value@);
            }
        }
        return ColumnType::Text;
    }
    let n = value.unicode_len();
    if boolean_text(value, n) {
        return ColumnType::Boolean;
    }
    let negative = n > 0 && char_at(value, 0) == '-';
    let from: usize = if negative {
        1
    } else {
        0
    };
    assert(unsigned_part(value@) =~= value@.subrange(from as int, n as int));
    if from < n && digits_between(value, from, n) && magnitude_fits(value, from, n, negative) {
        return ColumnType::Integer;
    }
    if unsigned_float_between(value, from, n) {
        return ColumnType::Float;
    }
    ColumnType::Text
}

} // verus!
