//! The byte/text encodings the library relies on: hexadecimal (the `hex`
//! crate), base64 (the `base64` crate), UTF-8 and lower-casing (std).
//!
//! Each outside call stands in a small wrapper whose contract states what the
//! outside function's source or documentation shows.

use vstd::prelude::*;
use vstd::utf8::{valid_utf8, decode_utf8};
use vstd::string::StringSliceAdditionalSpecFns;
use base64::Engine;

verus! {

// ---------------------------------------------------------------------------
// Hexadecimal
// ---------------------------------------------------------------------------

/// The value of a hexadecimal digit byte (either case), if it is one.
pub open spec fn hex_digit_value(b: u8) -> Option<u8> {
    if 0x30 <= b <= 0x39 {
        Some((b - 0x30) as u8)
    } else if 0x41 <= b <= 0x46 {
        Some((b - 0x41 + 10) as u8)
    } else if 0x61 <= b <= 0x66 {
        Some((b - 0x61 + 10) as u8)
    } else {
        None
    }
}

/// Whether `bytes` is a hex string: an even number of hexadecimal digits.
pub open spec fn is_hex_text(bytes: Seq<u8>) -> bool {
    &&& bytes.len() % 2 == 0
    &&& forall|i: int| 0 <= i < bytes.len() ==> #[trigger] hex_digit_value(bytes[i]) is Some
}

/// The bytes a hex string stands for: each pair of digits, high digit first.
pub open spec fn hex_text_value(bytes: Seq<u8>) -> Seq<u8> {
    Seq::new(
        (bytes.len() / 2) as nat,
        |i: int| (hex_digit_value(bytes[2 * i])->0 * 16 + hex_digit_value(bytes[2 * i + 1])->0) as u8,
    )
}

/// The lower-case hexadecimal digit for a value below 16.
pub open spec fn lower_hex_digit(n: u8) -> char {
    if n < 10 { ((n + 0x30) as u8) as char } else { ((n - 10 + 0x61) as u8) as char }
}

/// The lower-case hex text of `data`: two digits per byte, high digit first.
pub open spec fn lower_hex_text(data: Seq<u8>) -> Seq<char> {
    Seq::new(
        (2 * data.len()) as nat,
        |i: int| if i % 2 == 0 { lower_hex_digit(data[i / 2] / 16) } else { lower_hex_digit(data[i / 2] % 16) },
    )
}

/// Decodes hex text with `hex::decode`, which reads the text's UTF-8 bytes:
/// it succeeds exactly on an even number of hexadecimal digits of either
/// case and then yields one byte per digit pair. On failure the error's
/// display text is returned; for an odd number of bytes it is
/// `Odd number of digits`. The text for an invalid character is not stated
/// here.
#[verifier::external_body]
pub(crate) fn hex_decode(data: &str) -> (r: Result<Vec<u8>, String>)
    ensures
        r is Ok <==> is_hex_text(data.spec_bytes()),
        r matches Ok(v) ==> v@ == hex_text_value(data.spec_bytes()),
        r matches Err(m) ==> (data.spec_bytes().len() % 2 != 0 ==> m@ == "Odd number of digits"@),
{
    hex::decode(data).map_err(|error| error.to_string())
}

/// Encodes bytes as lower-case hex text with `hex::encode`: two digits per
/// byte.
#[verifier::external_body]
pub(crate) fn hex_encode(data: &[u8]) -> (r: String)
    ensures
        r@ == lower_hex_text(data@),
{
    hex::encode(data)
}

/// Lower-case hex text with a space between the digit pairs of consecutive
/// bytes, such as `48 69 ff`.
pub open spec fn spaced_hex(data: Seq<u8>) -> Seq<char>
    decreases data.len(),
{
    if data.len() == 0 {
        Seq::empty()
    } else if data.len() == 1 {
        seq![lower_hex_digit(data[0] / 16), lower_hex_digit(data[0] % 16)]
    } else {
        spaced_hex(data.drop_last()) + seq![' ', lower_hex_digit(data.last() / 16), lower_hex_digit(data.last() % 16)]
    }
}

/// A lower-case hex digit is an ASCII letter or digit that reads back as
/// its value.
pub proof fn lemma_lower_hex_digit(n: u8)
    requires
        n < 16,
    ensures
        (lower_hex_digit(n) as u32) < 0x80,
        hex_digit_value(lower_hex_digit(n) as u8) == Some(n),
        !crate::text::is_whitespace(lower_hex_digit(n)),
{
}

/// Spaced hex text starts and ends with a digit, and without its spaces it
/// is the plain hex text.
pub proof fn lemma_spaced_hex_shape(data: Seq<u8>)
    ensures
        crate::text::without_spaces(spaced_hex(data)) == lower_hex_text(data),
        data.len() > 0 ==> spaced_hex(data).len() > 0
            && spaced_hex(data)[0] == lower_hex_digit(data[0] / 16)
            && spaced_hex(data).last() == lower_hex_digit(data.last() % 16),
        data.len() == 0 ==> spaced_hex(data).len() == 0,
    decreases data.len(),
{
    let s = spaced_hex(data);
    if data.len() == 0 {
        assert(lower_hex_text(data) =~= Seq::<char>::empty());
    } else if data.len() == 1 {
        let hi = lower_hex_digit(data[0] / 16);
        let lo = lower_hex_digit(data[0] % 16);
        lemma_lower_hex_digit(data[0] / 16);
        lemma_lower_hex_digit(data[0] % 16);
        assert(s == seq![hi, lo]);
        assert(seq![hi, lo].drop_last() =~= seq![hi]);
        assert(seq![hi].drop_last() =~= Seq::<char>::empty());
        assert(crate::text::without_spaces(Seq::<char>::empty()) == Seq::<char>::empty());
        assert(crate::text::without_spaces(seq![hi]) =~= seq![hi]);
        assert(lower_hex_text(data) =~= seq![hi, lo]);
    } else {
        let front = data.drop_last();
        let b = data.last();
        let tail = seq![' ', lower_hex_digit(b / 16), lower_hex_digit(b % 16)];
        lemma_spaced_hex_shape(front);
        lemma_lower_hex_digit(b / 16);
        lemma_lower_hex_digit(b % 16);
        crate::text::lemma_without_spaces_concat(spaced_hex(front), tail);
        assert(tail.drop_last() =~= seq![' ', lower_hex_digit(b / 16)]);
        assert(seq![' ', lower_hex_digit(b / 16)].drop_last() =~= seq![' ']);
        assert(seq![' '].drop_last() =~= Seq::<char>::empty());
        assert(crate::text::without_spaces(Seq::<char>::empty()) == Seq::<char>::empty());
        assert(crate::text::without_spaces(seq![' ']) =~= Seq::<char>::empty());
        assert(crate::text::without_spaces(seq![' ', lower_hex_digit(b / 16)]) =~= seq![lower_hex_digit(b / 16)]);
        assert(crate::text::without_spaces(tail) =~= seq![lower_hex_digit(b / 16), lower_hex_digit(b % 16)]);
        assert(lower_hex_text(data) =~= lower_hex_text(front) + seq![lower_hex_digit(b / 16), lower_hex_digit(b % 16)]);
        assert(s == spaced_hex(front) + tail);
        assert(s[0] == spaced_hex(front)[0]);
        assert(front[0] == data[0]);
    }
}

/// Plain lower-case hex text is a hex string whose digit pairs are the
/// bytes it was made from.
pub proof fn lemma_lower_hex_text_reads_back(data: Seq<u8>)
    ensures
        is_hex_text(vstd::utf8::encode_utf8(lower_hex_text(data))),
        hex_text_value(vstd::utf8::encode_utf8(lower_hex_text(data))) == data,
{
    let t = lower_hex_text(data);
    assert forall|i: int| 0 <= i < t.len() implies '\0' <= #[trigger] t[i] <= '\u{7f}' by {
        if i % 2 == 0 {
            lemma_lower_hex_digit(data[i / 2] / 16);
        } else {
            lemma_lower_hex_digit(data[i / 2] % 16);
        }
    }
    assert(vstd::utf8::is_ascii_chars(t));
    vstd::utf8::is_ascii_chars_encode_utf8(t);
    let b = vstd::utf8::encode_utf8(t);
    assert(b.len() == 2 * data.len());
    assert forall|i: int| 0 <= i < b.len() implies #[trigger] hex_digit_value(b[i]) is Some by {
        assert(t[i] as u8 == b[i]);
        if i % 2 == 0 {
            lemma_lower_hex_digit(data[i / 2] / 16);
        } else {
            lemma_lower_hex_digit(data[i / 2] % 16);
        }
    }
    assert forall|i: int| 0 <= i < data.len() implies #[trigger] hex_text_value(b)[i] == data[i] by {
        let hi = data[i] / 16;
        let lo = data[i] % 16;
        lemma_lower_hex_digit(hi);
        lemma_lower_hex_digit(lo);
        assert((2 * i) / 2 == i && (2 * i) % 2 == 0);
        assert((2 * i + 1) / 2 == i && (2 * i + 1) % 2 == 1);
        assert(t[2 * i] as u8 == b[2 * i]);
        assert(t[2 * i + 1] as u8 == b[2 * i + 1]);
        assert(hex_digit_value(b[2 * i])->0 == hi);
        assert(hex_digit_value(b[2 * i + 1])->0 == lo);
    }
    assert(hex_text_value(b) =~= data);
}

/// Plain lower-case hex text holds no space.
pub proof fn lemma_lower_hex_text_has_no_space(data: Seq<u8>)
    ensures
        crate::text::without_spaces(lower_hex_text(data)) == lower_hex_text(data),
{
    let t = lower_hex_text(data);
    assert forall|i: int| 0 <= i < t.len() implies #[trigger] t[i] != ' ' by {
        if i % 2 == 0 {
            lemma_lower_hex_digit(data[i / 2] / 16);
        } else {
            lemma_lower_hex_digit(data[i / 2] % 16);
        }
    }
    crate::text::lemma_without_spaces_of_spaceless(t);
}

fn hex_digit_char(n: u8) -> (c: char)
    requires
        n < 16,
    ensures
        c == lower_hex_digit(n),
{
    if n < 10 { ((n + 0x30) as u8) as char } else { ((n - 10 + 0x61) as u8) as char }
}

fn spaced_hex_step(out: &mut String, data: &[u8], i: usize, hi: char, lo: char)
    requires
        i < data@.len(),
        old(out)@ == spaced_hex(data@.take(i as int)),
        hi == lower_hex_digit(data@[i as int] / 16),
        lo == lower_hex_digit(data@[i as int] % 16),
    ensures
        final(out)@ == spaced_hex(data@.take(i + 1)),
{
    let ghost next = data@.take(i + 1);
    assert(next.drop_last() == data@.take(i as int));
    assert(next.last() == data@[i as int]);
    if i > 0 {
        crate::text::push_char(out, ' ');
    }
    crate::text::push_char(out, hi);
    crate::text::push_char(out, lo);
    proof {
        if i == 0 {
            assert(data@.take(0) == Seq::<u8>::empty());
        }
    }
}

/// Formats each byte as two lower-case hex digits, separated by spaces.
pub fn spaced_lower_hex(data: &[u8]) -> (r: String)
    ensures
        r@ == spaced_hex(data@),
{
    let mut out = String::new();
    let mut i: usize = 0;
    assert(data@.take(0) == Seq::<u8>::empty());
    while i < data.len()
        invariant
            i <= data.len(),
            out@ == spaced_hex(data@.take(i as int)),
        decreases data.len() - i,
    {
        let b = data[i];
        spaced_hex_step(&mut out, data, i, hex_digit_char(b / 16), hex_digit_char(b % 16));
        i = i + 1;
    }
    assert(data@.take(data.len() as int) == data@);
    out
}

/// Encodes `data` with `hex::encode` and separates the digit pairs with
/// spaces.
pub fn spaced_hex_encode(data: &[u8]) -> (r: String)
    ensures
        r@ == spaced_hex(data@),
{
    let hex = hex_encode(data);
    let digits = crate::text::chars_of(hex.as_str());
    let mut out = String::new();
    let mut i: usize = 0;
    assert(data@.take(0) == Seq::<u8>::empty());
    while i < data.len()
        invariant
            i <= data.len(),
            digits@ == lower_hex_text(data@),
            out@ == spaced_hex(data@.take(i as int)),
        decreases data.len() - i,
    {
        assert(digits@.len() == 2 * data@.len());
        assert(2 * i + 1 < digits.len());
        assert(digits@[2 * i as int] == lower_hex_digit(data@[i as int] / 16));
        assert(digits@[2 * i + 1] == lower_hex_digit(data@[i as int] % 16));
        spaced_hex_step(&mut out, data, i, digits[2 * i], digits[2 * i + 1]);
        i = i + 1;
    }
    assert(data@.take(data.len() as int) == data@);
    out
}

// ---------------------------------------------------------------------------
// Base64
// ---------------------------------------------------------------------------

/// What the standard base64 engine (standard alphabet, padding required)
/// decodes `input` to, or `None` where it reports an error.
pub uninterp spec fn standard_base64_decoding(input: Seq<char>) -> Option<Seq<u8>>;

/// What the URL-safe base64 engine without padding decodes `input` to, or
/// `None` where it reports an error.
pub uninterp spec fn url_safe_no_pad_base64_decoding(input: Seq<char>) -> Option<Seq<u8>>;

/// The standard padded base64 text of `data`.
pub uninterp spec fn standard_base64_encoding(data: Seq<u8>) -> Seq<char>;

/// Decodes with `base64::engine::general_purpose::STANDARD`. The result is
/// named by `standard_base64_decoding`; on failure the error's display text
/// is returned, which is not stated here.
#[verifier::external_body]
pub(crate) fn base64_standard_decode(data: &str) -> (r: Result<Vec<u8>, String>)
    ensures
        r is Ok <==> standard_base64_decoding(data@) is Some,
        r matches Ok(v) ==> v@ == standard_base64_decoding(data@)->0,
{
    base64::engine::general_purpose::STANDARD.decode(data).map_err(|error| error.to_string())
}

/// Decodes with `base64::engine::general_purpose::URL_SAFE_NO_PAD`. The
/// result is named by `url_safe_no_pad_base64_decoding`; on failure the
/// error's display text is returned, which is not stated here.
#[verifier::external_body]
pub(crate) fn base64_url_safe_no_pad_decode(data: &str) -> (r: Result<Vec<u8>, String>)
    ensures
        r is Ok <==> url_safe_no_pad_base64_decoding(data@) is Some,
        r matches Ok(v) ==> v@ == url_safe_no_pad_base64_decoding(data@)->0,
{
    base64::engine::general_purpose::URL_SAFE_NO_PAD.decode(data).map_err(|error| error.to_string())
}

/// Encodes with `base64::engine::general_purpose::STANDARD`. The engine
/// panics when the encoded length overflows `usize`, which the bound on the
/// input length rules out.
#[verifier::external_body]
pub(crate) fn base64_standard_encode(data: &[u8]) -> (r: String)
    requires
        data@.len() <= usize::MAX / 2,
    ensures
        r@ == standard_base64_encoding(data@),
{
    base64::engine::general_purpose::STANDARD.encode(data)
}

// ---------------------------------------------------------------------------
// UTF-8 and case
// ---------------------------------------------------------------------------

/// Turns bytes into a string with `String::from_utf8`: it succeeds exactly on
/// valid UTF-8 and then holds the decoded characters. On failure the error's
/// display text is returned, which is not stated here.
#[verifier::external_body]
pub(crate) fn utf8_string(bytes: Vec<u8>) -> (r: Result<String, String>)
    ensures
        r is Ok <==> valid_utf8(bytes@),
        r matches Ok(s) ==> s@ == decode_utf8(bytes@),
{
    String::from_utf8(bytes).map_err(|error| error.to_string())
}

/// What `String::from_utf8_lossy` makes of `bytes`.
pub uninterp spec fn lossy_utf8_decoding(bytes: Seq<u8>) -> Seq<char>;

/// Decodes bytes with `String::from_utf8_lossy`, which replaces invalid
/// sequences with U+FFFD. Valid UTF-8 decodes to its characters; what an
/// invalid sequence becomes is named, not stated.
#[verifier::external_body]
pub(crate) fn utf8_lossy(bytes: &[u8]) -> (r: String)
    ensures
        r@ == lossy_utf8_decoding(bytes@),
        valid_utf8(bytes@) ==> r@ == decode_utf8(bytes@),
{
    String::from_utf8_lossy(bytes).into_owned()
}

/// Whether every character is ASCII.
pub open spec fn all_ascii(s: Seq<char>) -> bool {
    forall|i: int| 0 <= i < s.len() ==> (#[trigger] s[i] as u32) < 128
}

/// The ASCII lower-case form of a character.
pub open spec fn ascii_lower_char(c: char) -> char {
    if 'A' <= c <= 'Z' { ((c as u32) + 32) as char } else { c }
}

/// The ASCII lower-case form of a string.
pub open spec fn ascii_lower(s: Seq<char>) -> Seq<char> {
    Seq::new(s.len(), |i: int| ascii_lower_char(s[i]))
}

/// What `str::to_lowercase` makes of `s`.
pub uninterp spec fn unicode_lowercase(s: Seq<char>) -> Seq<char>;

/// Lower-cases with `str::to_lowercase` (Unicode lower-case mapping). On
/// ASCII text it lower-cases the letters `A`–`Z` and keeps every other
/// character; on other text the result is named, not stated.
#[verifier::external_body]
pub(crate) fn to_lowercase(s: &str) -> (r: String)
    ensures
        r@ == unicode_lowercase(s@),
        all_ascii(s@) ==> r@ == ascii_lower(s@),
{
    s.to_lowercase()
}

} // verus!
