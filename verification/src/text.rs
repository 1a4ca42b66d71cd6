//! Text helpers shared by the protocol modules: decimal numbers, UTF-8 and
//! the few string operations of the standard library that the logic needs.
use vstd::prelude::*;
use vstd::string::*;
use vstd::utf8::{
    encode_scalar, encode_utf8, is_ascii_chars, is_ascii_chars_encode_utf8, partial_valid_utf8,
    partial_valid_utf8_extend_ascii_block, valid_utf8,
};

verus! {

/// Equality of string slices in the standard library: two slices are equal
/// exactly when they hold the same characters.
pub assume_specification[ <str as PartialEq>::eq ](a: &str, b: &str) -> (r: bool)
    ensures
        r == (a@ == b@),
;

/// True when `pattern` occurs in `text`: some stretch of `text` is `pattern`.
pub open spec fn occurs_in(pattern: Seq<char>, text: Seq<char>) -> bool {
    exists|i: int|
        0 <= i <= text.len() - pattern.len() && #[trigger] text.subrange(i, i + pattern.len())
            == pattern
}

/// What `str::replace` of the standard library returns: `text` with every
/// match of `from` replaced by `to`.
pub uninterp spec fn replaced(text: Seq<char>, from: Seq<char>, to: Seq<char>) -> Seq<char>;

/// `str::contains` of the standard library, with a string as the pattern:
/// true exactly when the pattern occurs in the text.
#[verifier::external_body]
pub(crate) fn str_contains(text: &str, pattern: &str) -> (r: bool)
    ensures
        r == occurs_in(pattern@, text@),
{
    text.contains(pattern)
}

/// `str::replace` of the standard library, with a string as the pattern. The
/// result is a function of the three texts; a text in which the pattern does
/// not occur comes back unchanged.
#[verifier::external_body]
pub(crate) fn str_replace(text: &str, from: &str, to: &str) -> (r: String)
    ensures
        r@ == replaced(text@, from@, to@),
        !occurs_in(from@, text@) ==> r@ == text@,
{
    text.replace(from, to)
}

/// True for the ASCII codes of `0` to `9`.
pub open spec fn is_digit(byte: u8) -> bool {
    0x30 <= byte <= 0x39
}

/// True when every byte of `text` is an ASCII digit.
pub open spec fn all_digits(text: Seq<u8>) -> bool {
    forall|i: int| 0 <= i < text.len() ==> is_digit(#[trigger] text[i])
}

/// The number that a sequence of ASCII digits denotes in base ten; leading
/// zeros are allowed and the empty sequence denotes zero.
pub open spec fn digits_value(digits: Seq<u8>) -> nat
    decreases digits.len(),
{
    if digits.len() == 0 {
        0
    } else {
        digits_value(digits.drop_last()) * 10 + (digits.last() - 0x30) as nat
    }
}

/// `text` without its leading `+`, if it has one.
pub open spec fn unsigned_digits(text: Seq<u8>) -> Seq<u8> {
    if text.len() > 0 && text[0] == 0x2b {
        text.skip(1)
    } else {
        text
    }
}

/// The value of `text` read as an unsigned decimal number no larger than
/// `max`: an optional `+`, then at least one digit and nothing else.
pub open spec fn decimal_value(text: Seq<u8>, max: nat) -> Option<nat> {
    let digits = unsigned_digits(text);
    if digits.len() > 0 && all_digits(digits) && digits_value(digits) <= max {
        Some(digits_value(digits))
    } else {
        None
    }
}

/// The shortest decimal form of `n`, as ASCII digits.
pub open spec fn decimal_digits(n: nat) -> Seq<u8>
    decreases n,
{
    if n < 10 {
        seq![(0x30 + n) as u8]
    } else {
        decimal_digits(n / 10).push((0x30 + n % 10) as u8)
    }
}

/// The bytes of a text of ASCII characters.
pub open spec fn ascii_bytes(text: Seq<char>) -> Seq<u8> {
    text.map_values(|c: char| c as u8)
}

/// The value of a text read as an unsigned decimal number no larger than
/// `max`: an optional `+`, then at least one of the digits `0` to `9` and
/// nothing else.
pub open spec fn decimal_text_value(text: Seq<char>, max: nat) -> Option<nat> {
    if is_ascii_chars(text) {
        decimal_value(ascii_bytes(text), max)
    } else {
        None
    }
}

/// The shortest decimal form of `n`, as text.
pub open spec fn decimal_text(n: nat) -> Seq<char> {
    decimal_digits(n).map_values(|digit: u8| digit as char)
}

/// A prefix of a digit sequence never denotes more than the whole.
pub proof fn lemma_prefix_value(digits: Seq<u8>, k: int)
    requires
        0 <= k <= digits.len(),
        all_digits(digits),
    ensures
        digits_value(digits.take(k)) <= digits_value(digits),
    decreases digits.len(),
{
    if k == digits.len() {
        assert(digits.take(k) =~= digits);
    } else {
        let front = digits.drop_last();
        assert(front.take(k) =~= digits.take(k));
        assert(all_digits(front)) by {
            assert forall|i: int| 0 <= i < front.len() implies is_digit(#[trigger] front[i]) by {
                assert(front[i] == digits[i]);
            }
        }
        lemma_prefix_value(front, k);
        assert(is_digit(digits[digits.len() - 1]));
    }
}

/// Reading the decimal form of a number gives the number back.
pub proof fn lemma_decimal_digits_value(n: nat)
    ensures
        decimal_digits(n).len() > 0,
        all_digits(decimal_digits(n)),
        digits_value(decimal_digits(n)) == n,
        decimal_digits(n)[0] != 0x2b,
    decreases n,
{
    let text = decimal_digits(n);
    if n < 10 {
        assert(text.drop_last() =~= Seq::<u8>::empty());
        assert(digits_value(text.drop_last()) == 0);
    } else {
        lemma_decimal_digits_value(n / 10);
        let front = decimal_digits(n / 10);
        assert(text.drop_last() =~= front);
        assert(text.last() == (0x30 + n % 10) as u8);
        assert forall|i: int| 0 <= i < text.len() implies is_digit(#[trigger] text[i]) by {
            if i < front.len() {
                assert(text[i] == front[i]);
            }
        }
        assert(text[0] == front[0]);
    }
}

/// Every number up to `max` is read back from its decimal form.
pub proof fn lemma_decimal_round_trip(n: nat, max: nat)
    requires
        n <= max,
    ensures
        decimal_value(decimal_digits(n), max) == Some(n),
{
    lemma_decimal_digits_value(n);
}

/// A sequence of ASCII digits is valid UTF-8.
pub proof fn lemma_digits_valid_utf8(digits: Seq<u8>)
    requires
        all_digits(digits),
    ensures
        valid_utf8(digits),
{
    assert(digits.subrange(0, 0) =~= Seq::<u8>::empty());
    assert(partial_valid_utf8(digits, 0));
    assert forall|i: int| 0 <= i < digits.len() implies vstd::utf8::is_leading_byte_width_1(
        #[trigger] digits[i],
    ) by {
        assert(is_digit(digits[i]));
    }
    partial_valid_utf8_extend_ascii_block(digits, 0, digits.len() as int);
    assert(digits.subrange(0, digits.len() as int) =~= digits);
}

/// A character whose code is below 128 is an ASCII character.
proof fn lemma_ascii_char(c: char)
    ensures
        c as u32 <= 0x7f ==> '\0' <= c <= '\u{7f}',
{
}

/// The first byte of the encoding of a character outside ASCII is no ASCII
/// byte.
proof fn lemma_leading_byte(scalar: u32)
    by (bit_vector)
    requires
        scalar > 0x7f,
    ensures
        (0xC0u8 | ((scalar >> 6) & 0x1F) as u8) >= 0x80,
        (0xE0u8 | ((scalar >> 12) & 0x0F) as u8) >= 0x80,
        (0xF0u8 | ((scalar >> 18) & 0x7) as u8) >= 0x80,
{
}

/// The encoding of a text with a character outside ASCII holds a byte
/// outside ASCII.
proof fn lemma_high_byte(text: Seq<char>) -> (k: int)
    requires
        !is_ascii_chars(text),
    ensures
        0 <= k < encode_utf8(text).len(),
        encode_utf8(text)[k] >= 0x80,
    decreases text.len(),
{
    assert(text.len() > 0);
    let bytes = encode_utf8(text);
    let first = encode_scalar(text[0] as u32);
    let rest = text.drop_first();
    assert(bytes == first + encode_utf8(rest));
    if text[0] as u32 > 0x7f {
        lemma_leading_byte(text[0] as u32);
        assert(first.len() >= 1);
        assert(bytes[0] == first[0]);
        0
    } else {
        assert(!is_ascii_chars(rest)) by {
            if is_ascii_chars(rest) {
                assert forall|i: int| 0 <= i < text.len() implies '\0' <= #[trigger] text[i]
                    <= '\u{7f}' by {
                    if i > 0 {
                        assert(text[i] == rest[i - 1]);
                    } else {
                        lemma_ascii_char(text[0]);
                    }
                }
            }
        }
        let k = lemma_high_byte(rest);
        assert(first.len() == 1);
        assert(bytes[k + 1] == encode_utf8(rest)[k]);
        k + 1
    }
}

/// A text is a decimal number exactly when its UTF-8 encoding is one, and
/// then both denote the same number.
pub proof fn lemma_decimal_text(text: Seq<char>, max: nat)
    ensures
        decimal_value(encode_utf8(text), max) == decimal_text_value(text, max),
{
    let bytes = encode_utf8(text);
    if is_ascii_chars(text) {
        is_ascii_chars_encode_utf8(text);
        assert(bytes =~= ascii_bytes(text));
    } else {
        let k = lemma_high_byte(text);
        let digits = unsigned_digits(bytes);
        if digits.len() == bytes.len() {
            assert(!is_digit(digits[k]));
        } else {
            assert(k > 0);
            assert(digits[k - 1] == bytes[k]);
            assert(!is_digit(digits[k - 1]));
        }
    }
}

/// Every number up to `max` is read back from its decimal text.
pub proof fn lemma_decimal_text_round_trip(n: nat, max: nat)
    requires
        n <= max,
    ensures
        decimal_text_value(decimal_text(n), max) == Some(n),
{
    let digits = decimal_digits(n);
    let text = decimal_text(n);
    lemma_decimal_digits_value(n);
    assert forall|i: int| 0 <= i < text.len() implies '\0' <= #[trigger] text[i] <= '\u{7f}' by {
        assert(is_digit(digits[i]));
    }
    assert(ascii_bytes(text) =~= digits) by {
        assert forall|i: int| 0 <= i < digits.len() implies ascii_bytes(text)[i] == digits[i] by {
            assert(is_digit(digits[i]));
        }
    }
}

/// Reads `text` as an unsigned decimal number no larger than `max`.
pub fn parse_decimal(text: &[u8], max: u64) -> (r: Option<u64>)
    ensures
        match r {
            Some(n) => decimal_value(text@, max as nat) == Some(n as nat),
            None => decimal_value(text@, max as nat) is None,
        },
{
    let start: usize = if text.len() > 0 && text[0] == 0x2b {
        1
    } else {
        0
    };
    let ghost digits = unsigned_digits(text@);
    assert(digits =~= text@.skip(start as int));
    if start == text.len() {
        return None;
    }
    let limit: u64 = max / 10;
    let last: u64 = max % 10;
    let mut value: u64 = 0;
    let mut i: usize = start;
    assert(digits.take(0) =~= Seq::<u8>::empty());
    while i < text.len()
        invariant
            start <= i <= text.len(),
            digits == unsigned_digits(text@),
            digits == text@.skip(start as int),
            digits.len() == text.len() - start,
            all_digits(digits.take(i - start)),
            value == digits_value(digits.take(i - start)),
            value <= max,
            limit == max / 10,
            last == max % 10,
        decreases text.len() - i,
    {
        let byte = text[i];
        let ghost seen = digits.take(i - start);
        let ghost next = digits.take(i + 1 - start);
        assert(digits[i - start] == byte);
        if byte < 0x30 || byte > 0x39 {
            return None;
        }
        let digit: u64 = (byte - 0x30) as u64;
        proof {
            assert(next.drop_last() =~= seen);
            assert(next.last() == byte);
            assert(digits_value(next) == value * 10 + digit);
            assert forall|j: int| 0 <= j < next.len() implies is_digit(#[trigger] next[j]) by {
                if j < seen.len() {
                    assert(next[j] == seen[j]);
                }
            }
        }
        if value > limit || (value == limit && digit > last) {
            proof {
                if all_digits(digits) {
                    lemma_prefix_value(digits, i + 1 - start);
                }
            }
            return None;
        }
        value = value * 10 + digit;
        i += 1;
    }
    assert(digits.take(i - start) =~= digits);
    Some(value)
}

/// Reads `text` as an unsigned decimal number no larger than `max`.
pub fn parse_decimal_text(text: &str, max: u64) -> (r: Option<u64>)
    ensures
        match r {
            Some(n) => decimal_text_value(text@, max as nat) == Some(n as nat),
            None => decimal_text_value(text@, max as nat) is None,
        },
{
    proof {
        lemma_decimal_text(text@, max as nat);
    }
    parse_decimal(text.as_bytes(), max)
}

/// The text of one decimal digit.
fn digit_text(digit: u64) -> (r: &'static str)
    requires
        digit < 10,
    ensures
        r@ == seq![((0x30 + digit) as u8) as char],
{
    let r = match digit {
        0 => "0",
        1 => "1",
        2 => "2",
        3 => "3",
        4 => "4",
        5 => "5",
        6 => "6",
        7 => "7",
        8 => "8",
        _ => "9",
    };
    proof {
        reveal_strlit("0");
        reveal_strlit("1");
        reveal_strlit("2");
        reveal_strlit("3");
        reveal_strlit("4");
        reveal_strlit("5");
        reveal_strlit("6");
        reveal_strlit("7");
        reveal_strlit("8");
        reveal_strlit("9");
        assert(r@ =~= seq![((0x30 + digit) as u8) as char]);
    }
    r
}

/// Writes `n` in its shortest decimal form.
pub fn format_decimal(n: u64) -> (r: String)
    ensures
        r@ == decimal_text(n as nat),
    decreases n,
{
    if n < 10 {
        let r = digit_text(n).to_owned();
        assert(r@ =~= decimal_text(n as nat));
        r
    } else {
        let r = format_decimal(n / 10).concat(digit_text(n % 10));
        assert(r@ =~= decimal_text(n as nat));
        r
    }
}

} // verus!
