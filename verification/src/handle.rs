//! Native window handles, and reading one from its hexadecimal text.

use vstd::prelude::*;
use vstd::string::*;
use vstd::utf8::*;
use crate::error::OverlayError;

verus! {

/// The operating system's name for a window. The overlay only carries such a
/// value around; it neither owns nor frees what the value stands for.
#[derive(Clone, Copy, Debug, PartialEq, Eq, Structural)]
pub struct NativeWindowHandle {
    /// The handle as a pointer-sized integer.
    pub value: isize,
}

/// `byte` is one of `0`-`9`, `a`-`f`, `A`-`F`.
pub open spec fn is_hex_digit(byte: u8) -> bool {
    (0x30 <= byte <= 0x39) || (0x61 <= byte <= 0x66) || (0x41 <= byte <= 0x46)
}

/// The number a hexadecimal digit stands for; zero for any other byte.
pub open spec fn hex_digit_value(byte: u8) -> nat {
    if 0x30 <= byte <= 0x39 {
        (byte - 0x30) as nat
    } else if 0x61 <= byte <= 0x66 {
        (byte - 0x61 + 10) as nat
    } else if 0x41 <= byte <= 0x46 {
        (byte - 0x41 + 10) as nat
    } else {
        0
    }
}

/// Every byte of `text` is a hexadecimal digit.
pub open spec fn all_hex_digits(text: Seq<u8>) -> bool {
    forall|i: int| 0 <= i < text.len() ==> is_hex_digit(#[trigger] text[i])
}

/// The number that `digits` writes in base sixteen, most significant digit
/// first.
pub open spec fn hex_value(digits: Seq<u8>) -> nat
    decreases digits.len(),
{
    if digits.len() == 0 {
        0
    } else {
        hex_value(digits.drop_last()) * 16 + hex_digit_value(digits.last())
    }
}

/// `text` begins with `0x` or `0X`.
pub open spec fn has_hex_prefix(text: Seq<u8>) -> bool {
    text.len() >= 2 && text[0] == 0x30 && (text[1] == 0x78 || text[1] == 0x58)
}

/// `text` without its `0x` or `0X`, if it begins with one.
pub open spec fn strip_hex_prefix(text: Seq<u8>) -> Seq<u8> {
    if has_hex_prefix(text) {
        text.skip(2)
    } else {
        text
    }
}

/// The handle that `text` writes, if it writes one: after an optional `0x` or
/// `0X` there is at least one byte, every byte is a hexadecimal digit, and the
/// number fits a pointer-sized signed integer.
pub open spec fn handle_literal_value(text: Seq<u8>) -> Option<int> {
    let digits = strip_hex_prefix(text);
    if digits.len() > 0 && all_hex_digits(digits) && hex_value(digits) <= isize::MAX {
        Some(hex_value(digits) as int)
    } else {
        None
    }
}

/// `symbol` is one of `0`-`9`, `a`-`f`, `A`-`F`.
pub open spec fn is_hex_char(symbol: char) -> bool {
    ('0' <= symbol <= '9') || ('a' <= symbol <= 'f') || ('A' <= symbol <= 'F')
}

/// Every character of `text` is a hexadecimal digit.
pub open spec fn all_hex_chars(text: Seq<char>) -> bool {
    forall|i: int| 0 <= i < text.len() ==> is_hex_char(#[trigger] text[i])
}

/// `text` begins with `0x` or `0X`.
pub open spec fn has_hex_prefix_chars(text: Seq<char>) -> bool {
    text.len() >= 2 && text[0] == '0' && (text[1] == 'x' || text[1] == 'X')
}

/// `text` without its `0x` or `0X`, if it begins with one.
pub open spec fn strip_hex_prefix_chars(text: Seq<char>) -> Seq<char> {
    if has_hex_prefix_chars(text) {
        text.skip(2)
    } else {
        text
    }
}

/// The bytes of a text of ASCII characters, one byte for each character.
pub open spec fn ascii_bytes(text: Seq<char>) -> Seq<u8> {
    Seq::new(text.len(), |i: int| text[i] as u8)
}

/// The handle that a text writes, if it writes one: the text is ASCII, and
/// its bytes write a handle.
pub open spec fn handle_text_value(text: Seq<char>) -> Option<int> {
    if is_ascii_chars(text) {
        handle_literal_value(ascii_bytes(text))
    } else {
        None
    }
}

/// A number never shrinks when more digits follow it.
proof fn lemma_hex_value_grows(digits: Seq<u8>, shorter: int)
    requires
        0 <= shorter <= digits.len(),
    ensures
        hex_value(digits.take(shorter)) <= hex_value(digits),
    decreases digits.len(),
{
    if shorter == digits.len() {
        assert(digits.take(shorter) =~= digits);
    } else {
        lemma_hex_value_grows(digits.drop_last(), shorter);
        assert(digits.drop_last().take(shorter) =~= digits.take(shorter));
    }
}

/// The value of a hexadecimal digit, or `None` for any other byte.
fn hex_digit(byte: u8) -> (digit: Option<u8>)
    ensures
        digit is Some == is_hex_digit(byte),
        digit is Some ==> digit->0 == hex_digit_value(byte) && digit->0 < 16,
{
    if 0x30 <= byte && byte <= 0x39 {
        Some(byte - 0x30)
    } else if 0x61 <= byte && byte <= 0x66 {
        Some(byte - 0x61 + 10)
    } else if 0x41 <= byte && byte <= 0x46 {
        Some(byte - 0x41 + 10)
    } else {
        None
    }
}

/// Reads a window handle from the bytes of its hexadecimal text, with or
/// without a leading `0x`.
pub fn parse_handle_bytes(text: &[u8]) -> (parsed: Result<NativeWindowHandle, OverlayError>)
    ensures
        match handle_literal_value(text@) {
            Some(value) => parsed == Ok::<NativeWindowHandle, OverlayError>(
                NativeWindowHandle { value: value as isize },
            ),
            None => parsed == Err::<NativeWindowHandle, OverlayError>(
                OverlayError::InvalidHandleFormat,
            ),
        },
{
    let len: usize = text.len();
    let start: usize = if len >= 2 && text[0] == 0x30 && (text[1] == 0x78 || text[1] == 0x58) {
        2
    } else {
        0
    };
    let ghost digits = strip_hex_prefix(text@);
    if start == len {
        return Err(OverlayError::InvalidHandleFormat);
    }
    let mut value: isize = 0;
    let mut at: usize = start;
    while at < len
        invariant
            start <= at <= len,
            len == text@.len(),
            digits == strip_hex_prefix(text@),
            digits == text@.subrange(start as int, len as int),
            all_hex_digits(digits.take(at - start)),
            0 <= value,
            value == hex_value(digits.take(at - start)),
        decreases len - at,
    {
        let ghost seen = digits.take(at - start);
        let ghost next = digits.take(at - start + 1);
        proof {
            assert(next.drop_last() =~= seen);
            lemma_hex_value_grows(digits, at - start + 1);
        }
        let digit: u8 = match hex_digit(text[at]) {
            Some(digit) => digit,
            None => {
                return Err(OverlayError::InvalidHandleFormat);
            },
        };
        let shifted: isize = match value.checked_mul(16) {
            Some(shifted) => shifted,
            None => {
                return Err(OverlayError::InvalidHandleFormat);
            },
        };
        value = match shifted.checked_add(digit as isize) {
            Some(sum) => sum,
            None => {
                return Err(OverlayError::InvalidHandleFormat);
            },
        };
        at = at + 1;
        assert(all_hex_digits(next)) by {
            assert forall|i: int| 0 <= i < next.len() implies is_hex_digit(#[trigger] next[i]) by {
                if i < seen.len() {
                    assert(next[i] == seen[i]);
                }
            }
        }
    }
    assert(digits.take(at - start) =~= digits);
    Ok(NativeWindowHandle { value })
}

/// Reads the target window's handle from its text: hexadecimal digits, with or
/// without a leading `0x`. Anything else, the empty text included, is refused.
pub fn parse_handle(text: &str) -> (parsed: Result<NativeWindowHandle, OverlayError>)
    ensures
        match handle_text_value(text@) {
            Some(value) => parsed == Ok::<NativeWindowHandle, OverlayError>(
                NativeWindowHandle { value: value as isize },
            ),
            None => parsed == Err::<NativeWindowHandle, OverlayError>(
                OverlayError::InvalidHandleFormat,
            ),
        },
{
    proof {
        lemma_text_reads_as_its_bytes(text@);
    }
    parse_handle_bytes(text.as_bytes())
}

/// Bytes that write a handle are all below `0x80`.
proof fn lemma_handle_bytes_are_plain(bytes: Seq<u8>)
    requires
        handle_literal_value(bytes) is Some,
    ensures
        forall|i: int| 0 <= i < bytes.len() ==> #[trigger] bytes[i] < 0x80,
{
    let digits = strip_hex_prefix(bytes);
    assert forall|i: int| 0 <= i < bytes.len() implies #[trigger] bytes[i] < 0x80 by {
        if has_hex_prefix(bytes) {
            if i >= 2 {
                assert(is_hex_digit(digits[i - 2]));
            }
        } else {
            assert(is_hex_digit(digits[i]));
        }
    }
}

/// A text whose UTF-8 encoding holds no byte from `0x80` up is ASCII.
proof fn lemma_plain_bytes_mean_ascii(text: Seq<char>)
    requires
        forall|i: int| 0 <= i < encode_utf8(text).len() ==> #[trigger] encode_utf8(text)[i] < 0x80,
    ensures
        is_ascii_chars(text),
    decreases text.len(),
{
    if text.len() > 0 {
        let scalar = text[0] as u32;
        char_is_scalar(text[0]);
        char_u32_cast(text[0], scalar);
        let first = encode_scalar(scalar);
        let rest = text.drop_first();
        assert(encode_utf8(text) == first + encode_utf8(rest));
        assert(encode_utf8(text)[0] == first[0]);
        assert(leading_byte_width_2(scalar) >= 0x80 && leading_byte_width_3(scalar) >= 0x80
            && leading_byte_width_4(scalar) >= 0x80) by (bit_vector);
        assert(has_width_1_encoding(scalar));
        assert forall|i: int| 0 <= i < encode_utf8(rest).len() implies #[trigger] encode_utf8(
            rest,
        )[i] < 0x80 by {
            assert(encode_utf8(rest)[i] == encode_utf8(text)[i + 1]);
        }
        lemma_plain_bytes_mean_ascii(rest);
        assert forall|i: int| 0 <= i < text.len() implies '\0' <= #[trigger] text[i]
            <= '\u{7f}' by {
            if i > 0 {
                assert(text[i] == rest[i - 1]);
            }
        }
    }
}

/// What a text writes is what its UTF-8 encoding writes: an ASCII text has its
/// characters for bytes, and the encoding of any other text holds a byte that
/// is no hexadecimal digit.
pub proof fn lemma_text_reads_as_its_bytes(text: Seq<char>)
    ensures
        handle_literal_value(encode_utf8(text)) == handle_text_value(text),
{
    if is_ascii_chars(text) {
        is_ascii_chars_encode_utf8(text);
        assert(encode_utf8(text) =~= ascii_bytes(text));
    } else {
        if handle_literal_value(encode_utf8(text)) is Some {
            lemma_handle_bytes_are_plain(encode_utf8(text));
            lemma_plain_bytes_mean_ascii(text);
        }
    }
}

/// A run of hexadecimal digits reads the same with a `0x` or `0X` in front of
/// it as without, and it reads as the number it writes whenever that number
/// fits a handle.
pub proof fn lemma_prefix_is_optional(digits: Seq<u8>)
    requires
        all_hex_digits(digits),
    ensures
        handle_literal_value(seq![0x30u8, 0x78u8] + digits) == handle_literal_value(digits),
        handle_literal_value(seq![0x30u8, 0x58u8] + digits) == handle_literal_value(digits),
        digits.len() > 0 && hex_value(digits) <= isize::MAX ==> handle_literal_value(digits)
            == Some(hex_value(digits) as int),
{
    let lower = seq![0x30u8, 0x78u8] + digits;
    let upper = seq![0x30u8, 0x58u8] + digits;
    assert(lower.skip(2) =~= digits);
    assert(upper.skip(2) =~= digits);
    if digits.len() >= 2 {
        assert(is_hex_digit(digits[1]));
        assert(!has_hex_prefix(digits));
    }
}

/// Text that is empty, that holds nothing after its prefix, or that holds a
/// byte other than a hexadecimal digit after its prefix, is no handle.
pub proof fn lemma_malformed_is_refused(text: Seq<u8>, at: int)
    requires
        strip_hex_prefix(text).len() == 0 || (0 <= at < strip_hex_prefix(text).len()
            && !is_hex_digit(strip_hex_prefix(text)[at])),
    ensures
        handle_literal_value(text) is None,
{
}

/// A text of hexadecimal digits is ASCII, and its bytes are hexadecimal digits.
proof fn lemma_hex_chars_are_hex_bytes(digits: Seq<char>)
    requires
        all_hex_chars(digits),
    ensures
        is_ascii_chars(digits),
        all_hex_digits(ascii_bytes(digits)),
{
    assert forall|i: int| 0 <= i < digits.len() implies '\0' <= #[trigger] digits[i]
        <= '\u{7f}' by {
        assert(is_hex_char(digits[i]));
    }
    assert forall|i: int| 0 <= i < digits.len() implies is_hex_digit(
        #[trigger] ascii_bytes(digits)[i],
    ) by {
        assert(is_hex_char(digits[i]));
    }
}

/// A text of hexadecimal digits reads the same with a `0x` or `0X` in front
/// of it as without.
pub proof fn lemma_text_prefix_is_optional(digits: Seq<char>)
    requires
        all_hex_chars(digits),
    ensures
        handle_text_value(seq!['0', 'x'] + digits) == handle_text_value(digits),
        handle_text_value(seq!['0', 'X'] + digits) == handle_text_value(digits),
        handle_text_value(digits) == handle_literal_value(ascii_bytes(digits)),
{
    lemma_hex_chars_are_hex_bytes(digits);
    lemma_prefix_is_optional(ascii_bytes(digits));
    let lower = seq!['0', 'x'] + digits;
    let upper = seq!['0', 'X'] + digits;
    assert(is_ascii_chars(lower)) by {
        assert forall|i: int| 0 <= i < lower.len() implies '\0' <= #[trigger] lower[i]
            <= '\u{7f}' by {
            if i >= 2 {
                assert(lower[i] == digits[i - 2]);
            }
        }
    }
    assert(is_ascii_chars(upper)) by {
        assert forall|i: int| 0 <= i < upper.len() implies '\0' <= #[trigger] upper[i]
            <= '\u{7f}' by {
            if i >= 2 {
                assert(upper[i] == digits[i - 2]);
            }
        }
    }
    assert(ascii_bytes(lower) =~= seq![0x30u8, 0x78u8] + ascii_bytes(digits));
    assert(ascii_bytes(upper) =~= seq![0x30u8, 0x58u8] + ascii_bytes(digits));
}

/// A text that is empty, that holds nothing after its prefix, or that holds a
/// character other than a hexadecimal digit after its prefix, is no handle.
pub proof fn lemma_malformed_text_is_refused(text: Seq<char>, at: int)
    requires
        strip_hex_prefix_chars(text).len() == 0 || (0 <= at < strip_hex_prefix_chars(text).len()
            && !is_hex_char(strip_hex_prefix_chars(text)[at])),
    ensures
        handle_text_value(text) is None,
{
    if is_ascii_chars(text) {
        let bytes = ascii_bytes(text);
        assert(has_hex_prefix(bytes) == has_hex_prefix_chars(text)) by {
            if text.len() >= 2 {
                assert('\0' <= text[0] <= '\u{7f}' && '\0' <= text[1] <= '\u{7f}');
            }
        }
        assert(strip_hex_prefix(bytes) =~= ascii_bytes(strip_hex_prefix_chars(text)));
        if strip_hex_prefix_chars(text).len() > 0 {
            let symbol = strip_hex_prefix_chars(text)[at];
            assert('\0' <= symbol <= '\u{7f}') by {
                if has_hex_prefix_chars(text) {
                    assert(symbol == text[at + 2]);
                } else {
                    assert(symbol == text[at]);
                }
            }
            assert(!is_hex_digit(strip_hex_prefix(bytes)[at]));
        }
    }
}

} // verus!
