//! String literal unescaper.
//!
//! Given the text of a quoted literal, delimiters included, this module
//! identifies the quote kind from the first and last byte and decodes the
//! interior escape sequences: the named single-character escapes, `\xHH`,
//! `\uHHHH`, and octal escapes, with any other escaped byte copied through
//! unchanged. Decoded characters are produced as UTF-8 bytes. Errors are
//! reported per character with the offending byte range; the whole-string
//! entry point yields no value once any character fails.

use vstd::prelude::*;

verus! {

/// Which delimiter a quoted literal uses.
#[derive(Debug, Eq, PartialEq, Copy, Clone, Hash, Structural)]
pub enum QuoteKind {
    Single,
    Double,
}

/// The delimiter byte of a quote kind: `'` or `"`.
pub open spec fn quote_byte(q: QuoteKind) -> u8 {
    match q {
        QuoteKind::Single => 39,
        QuoteKind::Double => 34,
    }
}

/// Why one character of a literal failed to unescape.
#[derive(Debug, Eq, PartialEq, Copy, Clone, Hash, Structural)]
pub enum UnescapeError {
    /// A backslash stood at the very end of the content.
    LoneSlash,
    /// Found a non-escaped character that can only appear as escaped;
    /// for example `"` must always be escaped inside a double-quoted literal.
    EscapeOnlyChar,
    /// `\x` not followed by two hexadecimal digits.
    InvalidHexEscape,
    /// `\u` not followed by four hexadecimal digits.
    InvalidUnicodeEscape,
    /// `\u` naming a lone surrogate code point, which no byte string holds.
    UnpairedSurrogate,
}

/// The quoted content of a literal: its quote kind and the byte range of the
/// interior between the delimiters.
#[derive(Debug, Eq, PartialEq, Clone, Structural)]
pub struct QuotedContent {
    pub quotes: QuoteKind,
    pub start: usize,
    pub end: usize,
}

/// The quote kind of `s`, when `s` is at least two bytes long and starts and
/// ends with the same quote byte.
pub open spec fn spec_quote_kind(s: Seq<u8>) -> Option<QuoteKind> {
    if s.len() < 2 {
        None
    } else if s[0] == 34 && s[s.len() - 1] == 34 {
        Some(QuoteKind::Double)
    } else if s[0] == 39 && s[s.len() - 1] == 39 {
        Some(QuoteKind::Single)
    } else {
        None
    }
}

/// Finds the delimiters of a quoted literal: rejects inputs shorter than two
/// bytes (no quoted content) and inputs whose ends are not a matching pair of
/// quote bytes.
pub fn find_quoted_content(quoted: &[u8]) -> (r: Option<QuotedContent>)
    ensures
        match spec_quote_kind(quoted@) {
            Some(q) => {
                &&& r matches Some(c)
                &&& c.quotes == q
                &&& c.start == 1
                &&& c.end == quoted@.len() - 1
            },
            None => r is None,
        },
{
    if quoted.len() < 2 {
        return None;
    }
    let first = quoted[0];
    let last = quoted[quoted.len() - 1];
    if first == 34 && last == 34 {
        Some(QuotedContent { quotes: QuoteKind::Double, start: 1, end: quoted.len() - 1 })
    } else if first == 39 && last == 39 {
        Some(QuotedContent { quotes: QuoteKind::Single, start: 1, end: quoted.len() - 1 })
    } else {
        None
    }
}

/// ASCII hexadecimal digit.
pub open spec fn spec_is_hex_digit(b: u8) -> bool {
    (48 <= b && b <= 57) || (97 <= b && b <= 102) || (65 <= b && b <= 70)
}

/// The value of a hexadecimal digit.
pub open spec fn hex_val(b: u8) -> int {
    if 48 <= b && b <= 57 {
        b - 48
    } else if 97 <= b && b <= 102 {
        b - 87
    } else if 65 <= b && b <= 70 {
        b - 55
    } else {
        0
    }
}

/// ASCII octal digit.
pub open spec fn spec_is_octal_digit(b: u8) -> bool {
    48 <= b && b <= 55
}

/// The UTF-8 encoding of a code point below `0x10000`.
pub open spec fn utf8_bytes(v: int) -> Seq<u8>
    recommends
        0 <= v < 0x10000,
{
    if v < 0x80 {
        seq![v as u8]
    } else if v < 0x800 {
        seq![(192 + v / 64) as u8, (128 + v % 64) as u8]
    } else {
        seq![(224 + v / 4096) as u8, (128 + (v / 64) % 64) as u8, (128 + v % 64) as u8]
    }
}

/// One step of unescaping at position `i` of the content: the position just
/// after the consumed bytes, and the decoded UTF-8 bytes or the error.
pub open spec fn spec_unescape_char(s: Seq<u8>, i: int, q: QuoteKind) -> (int, Result<
    Seq<u8>,
    UnescapeError,
>)
    recommends
        0 <= i < s.len(),
{
    let b = s[i];
    if b == quote_byte(q) {
        (i + 1, Err(UnescapeError::EscapeOnlyChar))
    } else if b != 92 {
        (i + 1, Ok(seq![b]))
    } else if i + 1 >= s.len() {
        (i + 1, Err(UnescapeError::LoneSlash))
    } else {
        let c = s[i + 1];
        if c == 39 {  // '
            (i + 2, Ok(seq![39u8]))
        } else if c == 34 {  // "
            (i + 2, Ok(seq![34u8]))
        } else if c == 92 {  // backslash
            (i + 2, Ok(seq![92u8]))
        } else if c == 98 {  // b
            (i + 2, Ok(seq![8u8]))
        } else if c == 102 {  // f
            (i + 2, Ok(seq![12u8]))
        } else if c == 110 {  // n
            (i + 2, Ok(seq![10u8]))
        } else if c == 114 {  // r
            (i + 2, Ok(seq![13u8]))
        } else if c == 116 {  // t
            (i + 2, Ok(seq![9u8]))
        } else if c == 118 {  // v
            (i + 2, Ok(seq![11u8]))
        } else if c == 120 {  // x
            if i + 3 < s.len() && spec_is_hex_digit(s[i + 2]) && spec_is_hex_digit(s[i + 3]) {
                (i + 4, Ok(utf8_bytes(hex_val(s[i + 2]) * 16 + hex_val(s[i + 3]))))
            } else {
                (i + 2, Err(UnescapeError::InvalidHexEscape))
            }
        } else if c == 117 {  // u
            if i + 5 < s.len() && spec_is_hex_digit(s[i + 2]) && spec_is_hex_digit(s[i + 3])
                && spec_is_hex_digit(s[i + 4]) && spec_is_hex_digit(s[i + 5]) {
                let v = hex_val(s[i + 2]) * 4096 + hex_val(s[i + 3]) * 256 + hex_val(s[i + 4]) * 16
                    + hex_val(s[i + 5]);
                if 0xD800 <= v && v < 0xE000 {
                    (i + 6, Err(UnescapeError::UnpairedSurrogate))
                } else {
                    (i + 6, Ok(utf8_bytes(v)))
                }
            } else {
                (i + 2, Err(UnescapeError::InvalidUnicodeEscape))
            }
        } else if spec_is_octal_digit(c) {
            // Octal escape: up to three octal digits, at most two when the
            // first is above 3, so the value always fits in a byte.
            let d1 = (c - 48) as int;
            if i + 2 < s.len() && spec_is_octal_digit(s[i + 2]) {
                let d2 = (s[i + 2] - 48) as int;
                if d1 <= 3 && i + 3 < s.len() && spec_is_octal_digit(s[i + 3]) {
                    (i + 4, Ok(utf8_bytes(d1 * 64 + d2 * 8 + (s[i + 3] - 48))))
                } else {
                    (i + 3, Ok(utf8_bytes(d1 * 8 + d2)))
                }
            } else {
                (i + 2, Ok(utf8_bytes(d1)))
            }
        } else {
            // Any other escaped byte stands for itself; the backslash is dropped.
            (i + 2, Ok(seq![c]))
        }
    }
}

proof fn lemma_unescape_char_bounds(s: Seq<u8>, i: int, q: QuoteKind)
    requires
        0 <= i < s.len(),
    ensures
        i < spec_unescape_char(s, i, q).0 <= s.len(),
{
}

/// Unescapes the whole content from position `i` on: the concatenation of
/// every decoded character, or the first error with the byte range of the
/// character that caused it.
pub open spec fn spec_unescape_content(s: Seq<u8>, i: int, q: QuoteKind) -> Result<
    Seq<u8>,
    (int, int, UnescapeError),
>
    decreases s.len() - i,
    via spec_unescape_content_decreases
{
    if i < 0 || i >= s.len() {
        Ok(Seq::empty())
    } else {
        let (e, step) = spec_unescape_char(s, i, q);
        match step {
            Err(err) => Err((i, e, err)),
            Ok(out) => match spec_unescape_content(s, e, q) {
                Err(x) => Err(x),
                Ok(rest) => Ok(out + rest),
            },
        }
    }
}

#[via_fn]
proof fn spec_unescape_content_decreases(s: Seq<u8>, i: int, q: QuoteKind) {
    if 0 <= i && i < s.len() {
        lemma_unescape_char_bounds(s, i, q);
    }
}

/// The unescaped value of a whole quoted literal, delimiters included:
/// `None` when the input has no quoted content or any character of the
/// content fails to unescape.
pub open spec fn spec_unescape_string(quoted: Seq<u8>) -> Option<Seq<u8>> {
    match spec_quote_kind(quoted) {
        None => None,
        Some(q) => match spec_unescape_content(quoted.subrange(1, quoted.len() - 1), 0, q) {
            Ok(out) => Some(out),
            Err(_) => None,
        },
    }
}

/// Encodes a code point below `0x10000` as UTF-8 bytes.
fn utf8_encode(v: u32) -> (r: Vec<u8>)
    requires
        v < 0x10000,
    ensures
        r@ == utf8_bytes(v as int),
{
    let mut r: Vec<u8> = Vec::new();
    if v < 0x80 {
        r.push(v as u8);
    } else if v < 0x800 {
        r.push((192 + v / 64) as u8);
        r.push((128 + v % 64) as u8);
    } else {
        r.push((224 + v / 4096) as u8);
        r.push((128 + (v / 64) % 64) as u8);
        r.push((128 + v % 64) as u8);
    }
    proof {
        assert(r@ =~= utf8_bytes(v as int));
    }
    r
}

/// ASCII hexadecimal digit.
#[verifier::when_used_as_spec(spec_is_hex_digit)]
fn is_hex_digit(b: u8) -> (r: bool)
    ensures
        r == spec_is_hex_digit(b),
{
    (48 <= b && b <= 57) || (97 <= b && b <= 102) || (65 <= b && b <= 70)
}

/// The value of a hexadecimal digit.
fn hex_digit_val(b: u8) -> (r: u32)
    requires
        spec_is_hex_digit(b),
    ensures
        r == hex_val(b),
        r < 16,
{
    if 48 <= b && b <= 57 {
        (b - 48) as u32
    } else if 97 <= b && b <= 102 {
        (b - 87) as u32
    } else {
        (b - 55) as u32
    }
}

/// ASCII octal digit.
#[verifier::when_used_as_spec(spec_is_octal_digit)]
fn is_octal_digit(b: u8) -> (r: bool)
    ensures
        r == spec_is_octal_digit(b),
{
    48 <= b && b <= 55
}

/// Unescapes the single character starting at position `i` of the content:
/// returns the position just after the bytes it consumed, and the character's
/// UTF-8 bytes or the error.
pub fn unescape_char(s: &[u8], i: usize, quotes: QuoteKind) -> (r: (usize, Result<
    Vec<u8>,
    UnescapeError,
>))
    requires
        i < s@.len(),
    ensures
        r.0 == spec_unescape_char(s@, i as int, quotes).0,
        match spec_unescape_char(s@, i as int, quotes).1 {
            Ok(out) => r.1 matches Ok(v) && v@ == out,
            Err(err) => r.1 matches Err(e) && e == err,
        },
{
    let b = s[i];
    let qb: u8 = match quotes {
        QuoteKind::Single => 39,
        QuoteKind::Double => 34,
    };
    if b == qb {
        return (i + 1, Err(UnescapeError::EscapeOnlyChar));
    }
    if b != 92 {
        let mut v: Vec<u8> = Vec::new();
        v.push(b);
        return (i + 1, Ok(v));
    }
    if i + 1 >= s.len() {
        return (i + 1, Err(UnescapeError::LoneSlash));
    }
    let c = s[i + 1];
    match c {
        39 | 34 | 92 => {
            let mut v: Vec<u8> = Vec::new();
            v.push(c);
            (i + 2, Ok(v))
        },
        98 => {
            let mut v: Vec<u8> = Vec::new();
            v.push(8);
            (i + 2, Ok(v))
        },
        102 => {
            let mut v: Vec<u8> = Vec::new();
            v.push(12);
            (i + 2, Ok(v))
        },
        110 => {
            let mut v: Vec<u8> = Vec::new();
            v.push(10);
            (i + 2, Ok(v))
        },
        114 => {
            let mut v: Vec<u8> = Vec::new();
            v.push(13);
            (i + 2, Ok(v))
        },
        116 => {
            let mut v: Vec<u8> = Vec::new();
            v.push(9);
            (i + 2, Ok(v))
        },
        118 => {
            let mut v: Vec<u8> = Vec::new();
            v.push(11);
            (i + 2, Ok(v))
        },
        120 => {
            if s.len() - i > 3 && is_hex_digit(s[i + 2]) && is_hex_digit(s[i + 3]) {
                let v = hex_digit_val(s[i + 2]) * 16 + hex_digit_val(s[i + 3]);
                (i + 4, Ok(utf8_encode(v)))
            } else {
                (i + 2, Err(UnescapeError::InvalidHexEscape))
            }
        },
        117 => {
            if s.len() - i > 5 && is_hex_digit(s[i + 2]) && is_hex_digit(s[i + 3]) && is_hex_digit(
                s[i + 4],
            ) && is_hex_digit(s[i + 5]) {
                let v = hex_digit_val(s[i + 2]) * 4096 + hex_digit_val(s[i + 3]) * 256
                    + hex_digit_val(s[i + 4]) * 16 + hex_digit_val(s[i + 5]);
                if 0xD800 <= v && v < 0xE000 {
                    (i + 6, Err(UnescapeError::UnpairedSurrogate))
                } else {
                    (i + 6, Ok(utf8_encode(v)))
                }
            } else {
                (i + 2, Err(UnescapeError::InvalidUnicodeEscape))
            }
        },
        _ => {
            if is_octal_digit(c) {
                let d1 = (c - 48) as u32;
                if s.len() - i > 2 && is_octal_digit(s[i + 2]) {
                    let d2 = (s[i + 2] - 48) as u32;
                    if d1 <= 3 && s.len() - i > 3 && is_octal_digit(s[i + 3]) {
                        let d3 = (s[i + 3] - 48) as u32;
                        (i + 4, Ok(utf8_encode(d1 * 64 + d2 * 8 + d3)))
                    } else {
                        (i + 3, Ok(utf8_encode(d1 * 8 + d2)))
                    }
                } else {
                    (i + 2, Ok(utf8_encode(d1)))
                }
            } else {
                let mut v: Vec<u8> = Vec::new();
                v.push(c);
                (i + 2, Ok(v))
            }
        },
    }
}

/// Unescapes the interior of a literal, the delimiters already stripped:
/// yields the unescaped bytes, or the first error together with the byte
/// range of the character that caused it.
pub fn unescape_string_content(content: &[u8], quotes: QuoteKind) -> (r: Result<
    Vec<u8>,
    (usize, usize, UnescapeError),
>)
    ensures
        match spec_unescape_content(content@, 0, quotes) {
            Ok(out) => r matches Ok(v) && v@ == out,
            Err((a, b, err)) => r matches Err(x) && x.0 == a && x.1 == b && x.2 == err,
        },
{
    let ghost s = content@;
    let mut out: Vec<u8> = Vec::new();
    let mut j: usize = 0;
    while j < content.len()
        invariant
            j <= s.len(),
            content@ == s,
            match spec_unescape_content(s, j as int, quotes) {
                Ok(rest) => spec_unescape_content(s, 0, quotes) matches Ok(full) && full == out@
                    + rest,
                Err(x) => spec_unescape_content(s, 0, quotes) == Err::<Seq<u8>, _>(x),
            },
        decreases s.len() - j,
    {
        let (e, step) = unescape_char(content, j, quotes);
        match step {
            Err(err) => {
                return Err((j, e, err));
            },
            Ok(bytes) => {
                proof {
                    match spec_unescape_content(s, e as int, quotes) {
                        Ok(rest) => {
                            assert(out@ + (bytes@ + rest) =~= (out@ + bytes@) + rest);
                        },
                        Err(_) => {},
                    }
                }
                let mut bytes = bytes;
                out.append(&mut bytes);
                j = e;
            },
        }
    }
    proof {
        assert(spec_unescape_content(s, j as int, quotes) == Ok::<Seq<u8>, (
            int,
            int,
            UnescapeError,
        )>(Seq::empty()));
        assert(out@ + Seq::<u8>::empty() =~= out@);
    }
    Ok(out)
}

/// Unescapes a whole quoted literal, delimiters included: the unescaped
/// bytes, or `None` when the input has no quoted content or any character of
/// the content fails to unescape.
pub fn unescape_string(quoted: &[u8]) -> (r: Option<Vec<u8>>)
    ensures
        match spec_unescape_string(quoted@) {
            Some(out) => r matches Some(v) && v@ == out,
            None => r is None,
        },
{
    let content = match find_quoted_content(quoted) {
        None => {
            return None;
        },
        Some(c) => c,
    };
    let inner = &quoted[content.start..content.end];
    match unescape_string_content(inner, content.quotes) {
        Ok(v) => Some(v),
        Err(_) => None,
    }
}

} // verus!
