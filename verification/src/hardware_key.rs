//! Decoding of hardware-key (YubiKey challenge-response) secrets: plain
//! UTF-8 text, or hex digits behind a `hex:` prefix.

use vstd::prelude::*;
use vstd::utf8::encode_utf8;
use crate::text::{opt_view, chars_of, push_str, string_of, trim, trim_bounds, trim_end, trim_start};

verus! {

/// Why a hardware-key response could not be decoded.
#[derive(Debug, Clone, Copy, PartialEq, Eq, Structural)]
pub enum SecretError {
    /// The response is empty once trimmed.
    Empty,
    /// Nothing but separators follows `hex:`.
    HexEmpty,
    /// The hex digits do not come in pairs.
    HexOddLength,
    /// A character that is not a hex digit.
    InvalidHexDigit(char),
}

/// The text of a [`SecretError`], as the command reports it.
pub open spec fn secret_error_text(e: SecretError) -> Seq<char> {
    match e {
        SecretError::Empty => "Hardware-key response cannot be empty"@,
        SecretError::HexEmpty => "hex hardware-key response cannot be empty"@,
        SecretError::HexOddLength => "hex hardware-key response must contain an even number of digits"@,
        SecretError::InvalidHexDigit(c) => "invalid hex digit '"@ + seq![c] + "'"@,
    }
}

impl SecretError {
    /// The message of this error.
    pub fn message(&self) -> (s: String)
        ensures
            s@ == secret_error_text(*self),
    {
        match self {
            SecretError::Empty => String::from_str("Hardware-key response cannot be empty"),
            SecretError::HexEmpty => String::from_str("hex hardware-key response cannot be empty"),
            SecretError::HexOddLength => String::from_str(
                "hex hardware-key response must contain an even number of digits",
            ),
            SecretError::InvalidHexDigit(c) => {
                let mut s = String::from_str("invalid hex digit '");
                s.push(*c);
                push_str(&mut s, "'");
                s
            },
        }
    }
}

/// The value of a hex digit (either case), as `char::to_digit(16)` gives it.
pub open spec fn hex_digit_value(c: char) -> Option<u8> {
    if '0' <= c && c <= '9' {
        Some((c as u32 - '0' as u32) as u8)
    } else if 'a' <= c && c <= 'f' {
        Some((c as u32 - 'a' as u32 + 10) as u8)
    } else if 'A' <= c && c <= 'F' {
        Some((c as u32 - 'A' as u32 + 10) as u8)
    } else {
        None
    }
}

/// The value of one hex digit.
pub fn decode_hex_nibble(ch: char) -> (r: Result<u8, SecretError>)
    ensures
        match hex_digit_value(ch) {
            Some(v) => r == Ok::<u8, SecretError>(v),
            None => r == Err::<u8, SecretError>(SecretError::InvalidHexDigit(ch)),
        },
        r matches Ok(v) ==> v < 16,
{
    if '0' <= ch && ch <= '9' {
        Ok((ch as u32 - '0' as u32) as u8)
    } else if 'a' <= ch && ch <= 'f' {
        Ok((ch as u32 - 'a' as u32 + 10) as u8)
    } else if 'A' <= ch && ch <= 'F' {
        Ok((ch as u32 - 'A' as u32 + 10) as u8)
    } else {
        Err(SecretError::InvalidHexDigit(ch))
    }
}

/// The separators that hex input may hold: ASCII whitespace and `_`.
pub open spec fn is_hex_separator(c: char) -> bool {
    c == ' ' || c == '\t' || c == '\n' || c == '\x0C' || c == '\r' || c == '_'
}

/// The characters of `s` that are not separators.
pub open spec fn hex_cleaned(s: Seq<char>) -> Seq<char> {
    s.filter(|c: char| !is_hex_separator(c))
}

/// The bytes that the digit pairs of `b` stand for; each byte of `b` is
/// read as the character with that code, as `u8 as char` does.
pub open spec fn hex_pairs(b: Seq<u8>) -> Result<Seq<u8>, SecretError>
    decreases b.len(),
{
    if b.len() < 2 {
        Ok(seq![])
    } else {
        match hex_digit_value(b[0] as char) {
            None => Err(SecretError::InvalidHexDigit(b[0] as char)),
            Some(hi) => match hex_digit_value(b[1] as char) {
                None => Err(SecretError::InvalidHexDigit(b[1] as char)),
                Some(lo) => match hex_pairs(b.skip(2)) {
                    Ok(rest) => Ok(seq![(hi * 16 + lo) as u8] + rest),
                    Err(e) => Err(e),
                },
            },
        }
    }
}

/// What the hex part of a response decodes to: separators are dropped, the
/// rest must be a non-empty, even number of bytes of hex digits.
pub open spec fn hex_secret(s: Seq<char>) -> Result<Seq<u8>, SecretError> {
    let cleaned = hex_cleaned(s);
    let bytes = encode_utf8(cleaned);
    if cleaned.len() == 0 {
        Err(SecretError::HexEmpty)
    } else if bytes.len() % 2 != 0 {
        Err(SecretError::HexOddLength)
    } else {
        hex_pairs(bytes)
    }
}

/// The characters `hex:`.
pub open spec fn hex_prefix() -> Seq<char> {
    seq!['h', 'e', 'x', ':']
}

/// What a hardware-key response decodes to: it is trimmed; if it starts with
/// `hex:`, the rest is hex; otherwise the secret is its UTF-8 bytes.
pub open spec fn hardware_secret(s: Seq<char>) -> Result<Seq<u8>, SecretError> {
    let t = trim(s);
    if t.len() == 0 {
        Err(SecretError::Empty)
    } else if t.len() >= 4 && t.take(4) == hex_prefix() {
        hex_secret(t.skip(4))
    } else {
        Ok(encode_utf8(t))
    }
}

proof fn lemma_filter_push(s: Seq<char>, c: char)
    ensures
        s.push(c).filter(|c: char| !is_hex_separator(c)) == if is_hex_separator(c) {
            s.filter(|c: char| !is_hex_separator(c))
        } else {
            s.filter(|c: char| !is_hex_separator(c)).push(c)
        },
{
    reveal(Seq::filter);
    assert(s.push(c).drop_last() =~= s);
}

/// Decode the hex digits of `value`, ignoring ASCII whitespace and `_`.
pub fn decode_hex_secret(value: &str) -> (r: Result<Vec<u8>, SecretError>)
    ensures
        match hex_secret(value@) {
            Ok(b) => r matches Ok(v) && v@ == b,
            Err(e) => r == Err::<Vec<u8>, SecretError>(e),
        },
{
    let v = chars_of(value);
    let mut cleaned = String::new();
    let n = v.len();
    let mut i: usize = 0;
    assert(v@.take(0).filter(|c: char| !is_hex_separator(c)) =~= Seq::<char>::empty()) by {
        reveal(Seq::filter);
    }
    while i < n
        invariant
            i <= n == v@.len(),
            cleaned@ == v@.take(i as int).filter(|c: char| !is_hex_separator(c)),
        decreases n - i,
    {
        let c = v[i];
        proof {
            lemma_filter_push(v@.take(i as int), c);
            assert(v@.take(i + 1) =~= v@.take(i as int).push(c));
        }
        if !(c == ' ' || c == '\t' || c == '\n' || c == '\x0C' || c == '\r' || c == '_') {
            cleaned.push(c);
        }
        i = i + 1;
    }
    assert(v@.take(n as int) =~= v@);
    assert(cleaned@ == hex_cleaned(value@));
    let text = cleaned.as_str();
    if text.is_empty() {
        return Err(SecretError::HexEmpty);
    }
    let bytes = text.as_bytes();
    let len = bytes.len();
    if len % 2 != 0 {
        return Err(SecretError::HexOddLength);
    }
    let mut out: Vec<u8> = Vec::with_capacity(len / 2);
    let mut k: usize = 0;
    assert(bytes@.skip(0) =~= bytes@);
    assert(hex_secret(value@) == hex_pairs(bytes@));
    while k < len
        invariant
            hex_secret(value@) == hex_pairs(bytes@),
            k <= len == bytes@.len(),
            len % 2 == 0,
            k % 2 == 0,
            hex_pairs(bytes@) == match hex_pairs(bytes@.skip(k as int)) {
                Ok(rest) => Ok(out@ + rest),
                Err(e) => Err::<Seq<u8>, SecretError>(e),
            },
        decreases len - k,
    {
        let ghost tail = bytes@.skip(k as int);
        assert(tail.len() >= 2);
        assert(tail[0] == bytes@[k as int]);
        assert(tail[1] == bytes@[k + 1]);
        let hi = decode_hex_nibble(bytes[k] as char);
        let hi = match hi {
            Ok(h) => h,
            Err(e) => {
                assert(hex_pairs(tail) == Err::<Seq<u8>, SecretError>(e));
                return Err(e);
            },
        };
        let lo = decode_hex_nibble(bytes[k + 1] as char);
        let lo = match lo {
            Ok(l) => l,
            Err(e) => {
                assert(hex_pairs(tail) == Err::<Seq<u8>, SecretError>(e));
                return Err(e);
            },
        };
        let byte = (hi << 4) | lo;
        assert(byte == (hi * 16 + lo) as u8) by (bit_vector)
            requires
                hi < 16,
                lo < 16,
                byte == (hi << 4) | lo,
        ;
        proof {
            assert(tail.skip(2) =~= bytes@.skip(k + 2));
            assert(tail[0] == bytes@[k as int]);
            assert(tail[1] == bytes@[k + 1]);
            match hex_pairs(bytes@.skip(k + 2)) {
                Ok(rest) => {
                    assert(out@.push(byte) + rest =~= out@ + (seq![byte] + rest));
                },
                Err(e) => {},
            }
        }
        out.push(byte);
        k = k + 2;
    }
    assert(bytes@.skip(len as int) =~= Seq::<u8>::empty());
    assert(out@ + Seq::<u8>::empty() =~= out@);
    Ok(out)
}

/// Decode a hardware-key response: trimmed text, hex after a `hex:` prefix,
/// otherwise the UTF-8 bytes of the text.
pub fn decode_hardware_secret(value: &str) -> (r: Result<Vec<u8>, SecretError>)
    ensures
        match hardware_secret(value@) {
            Ok(b) => r matches Ok(v) && v@ == b,
            Err(e) => r == Err::<Vec<u8>, SecretError>(e),
        },
{
    let v = chars_of(value);
    let (a, b) = trim_bounds(&v);
    if a == b {
        return Err(SecretError::Empty);
    }
    let ghost t = trim(value@);
    if b - a >= 4 && v[a] == 'h' && v[a + 1] == 'e' && v[a + 2] == 'x' && v[a + 3] == ':' {
        assert(t.take(4) =~= hex_prefix());
        let rest = string_of(&v, a + 4, b);
        assert(rest@ =~= t.skip(4));
        return decode_hex_secret(rest.as_str());
    }
    assert(t.len() >= 4 ==> t.take(4) != hex_prefix()) by {
        if t.len() >= 4 && t.take(4) == hex_prefix() {
            assert(t.take(4)[0] == 'h');
            assert(t.take(4)[1] == 'e');
            assert(t.take(4)[2] == 'x');
            assert(t.take(4)[3] == ':');
        }
    }
    let trimmed = string_of(&v, a, b);
    let bytes = trimmed.as_str().as_bytes();
    Ok(vstd::slice::slice_to_vec(bytes))
}


/// The environment variables that may carry a hardware-key response, in
/// the order in which they are consulted.
#[derive(Debug, Clone, Copy, PartialEq, Eq, Structural)]
pub enum SecretVariable {
    /// `AXIOM_YUBIKEY_RESPONSE`
    YubikeyResponse,
    /// `AXIOM_HARDWARE_KEY_RESPONSE`
    HardwareKeyResponse,
}

/// The name of a [`SecretVariable`].
pub open spec fn secret_variable_name(v: SecretVariable) -> Seq<char> {
    match v {
        SecretVariable::YubikeyResponse => "AXIOM_YUBIKEY_RESPONSE"@,
        SecretVariable::HardwareKeyResponse => "AXIOM_HARDWARE_KEY_RESPONSE"@,
    }
}

impl SecretVariable {
    /// The name of this environment variable.
    pub fn name(&self) -> (s: &'static str)
        ensures
            s@ == secret_variable_name(*self),
    {
        match self {
            SecretVariable::YubikeyResponse => "AXIOM_YUBIKEY_RESPONSE",
            SecretVariable::HardwareKeyResponse => "AXIOM_HARDWARE_KEY_RESPONSE",
        }
    }
}

/// Why no hardware-key secret could be loaded.
#[derive(Debug, Clone, Copy, PartialEq, Eq, Structural)]
pub enum LoadSecretError {
    /// Neither variable holds a non-blank value.
    NotProvided,
    /// The first non-blank value does not decode.
    Undecodable(SecretVariable, SecretError),
}

/// The text of a [`LoadSecretError`]; for an undecodable value, the error
/// of the value itself is [`secret_error_text`] of its cause.
pub open spec fn load_secret_error_text(e: LoadSecretError) -> Seq<char> {
    match e {
        LoadSecretError::NotProvided => "Set AXIOM_YUBIKEY_RESPONSE to the YubiKey challenge-response bytes (plain UTF-8 or hex:...)"@,
        LoadSecretError::Undecodable(v, _) => "Failed to decode "@ + secret_variable_name(v),
    }
}

impl LoadSecretError {
    /// The message of this error.
    pub fn message(&self) -> (s: String)
        ensures
            s@ == load_secret_error_text(*self),
    {
        match self {
            LoadSecretError::NotProvided => String::from_str(
                "Set AXIOM_YUBIKEY_RESPONSE to the YubiKey challenge-response bytes (plain UTF-8 or hex:...)",
            ),
            LoadSecretError::Undecodable(v, _) => {
                let mut s = String::from_str("Failed to decode ");
                push_str(&mut s, v.name());
                s
            },
        }
    }
}

/// Whether a variable's value is used: it is set and not blank.
pub open spec fn secret_value_given(value: Option<Seq<char>>) -> bool {
    value matches Some(v) && trim(v).len() > 0
}

/// The secret that the two variables give: the first that is set and not
/// blank is decoded; blank or unset ones are passed over.
pub open spec fn secret_from_variables(
    yubikey: Option<Seq<char>>,
    hardware_key: Option<Seq<char>>,
) -> Result<Seq<u8>, LoadSecretError> {
    if secret_value_given(yubikey) {
        match hardware_secret(yubikey->0) {
            Ok(b) => Ok(b),
            Err(e) => Err(LoadSecretError::Undecodable(SecretVariable::YubikeyResponse, e)),
        }
    } else if secret_value_given(hardware_key) {
        match hardware_secret(hardware_key->0) {
            Ok(b) => Ok(b),
            Err(e) => Err(LoadSecretError::Undecodable(SecretVariable::HardwareKeyResponse, e)),
        }
    } else {
        Err(LoadSecretError::NotProvided)
    }
}

fn is_blank(s: &str) -> (r: bool)
    ensures
        r == (trim(s@).len() == 0),
{
    let v = chars_of(s);
    let (a, b) = trim_bounds(&v);
    a == b
}

/// Load the hardware-key secret from the values of `AXIOM_YUBIKEY_RESPONSE`
/// and `AXIOM_HARDWARE_KEY_RESPONSE` (`None` where a variable is unset).
pub fn hardware_secret_from_variables(yubikey: Option<String>, hardware_key: Option<String>) -> (r:
    Result<Vec<u8>, LoadSecretError>)
    ensures
        match secret_from_variables(opt_view(yubikey), opt_view(hardware_key)) {
            Ok(b) => r matches Ok(v) && v@ == b,
            Err(e) => r == Err::<Vec<u8>, LoadSecretError>(e),
        },
{
    if let Some(value) = &yubikey {
        if !is_blank(value.as_str()) {
            return match decode_hardware_secret(value.as_str()) {
                Ok(b) => Ok(b),
                Err(e) => Err(LoadSecretError::Undecodable(SecretVariable::YubikeyResponse, e)),
            };
        }
    }
    if let Some(value) = &hardware_key {
        if !is_blank(value.as_str()) {
            return match decode_hardware_secret(value.as_str()) {
                Ok(b) => Ok(b),
                Err(e) => Err(LoadSecretError::Undecodable(SecretVariable::HardwareKeyResponse, e)),
            };
        }
    }
    Err(LoadSecretError::NotProvided)
}

proof fn lemma_hex_pairs_never_empty_error(b: Seq<u8>)
    ensures
        hex_pairs(b) != Err::<Seq<u8>, SecretError>(SecretError::Empty),
    decreases b.len(),
{
    if b.len() >= 2 {
        lemma_hex_pairs_never_empty_error(b.skip(2));
    }
}

/// Only a `hex:` prefix selects hex: a response whose trimmed text is not
/// empty and does not start with `hex:` is that text's UTF-8 bytes, even
/// when it is made of hex digits; and a response is refused as empty exactly
/// when its trimmed text is empty.
pub proof fn law_plain_response_is_its_utf8_bytes(s: Seq<char>)
    ensures
        trim(s).len() > 0 && !(trim(s).len() >= 4 && trim(s).take(4) == seq!['h', 'e', 'x', ':'])
            ==> hardware_secret(s) == Ok::<Seq<u8>, SecretError>(encode_utf8(trim(s))),
        trim(s).len() == 0 <==> hardware_secret(s) == Err::<Seq<u8>, SecretError>(
            SecretError::Empty,
        ),
{
    if trim(s).len() > 0 && trim(s).len() >= 4 && trim(s).take(4) == hex_prefix() {
        let t = trim(s).skip(4);
        match hex_secret(t) {
            Ok(_) => {},
            Err(e) => {
                lemma_hex_pairs_never_empty_error(encode_utf8(hex_cleaned(t)));
            },
        }
    }
}

/// Whitespace around a response does not matter: a response decodes as its
/// trimmed text does.
pub proof fn law_surrounding_whitespace_ignored(s: Seq<char>)
    ensures
        hardware_secret(trim(s)) == hardware_secret(s),
{
    crate::text::lemma_trim_idempotent(s);
}

/// The hex digit for `d < 16`, upper-case when `upper` holds.
pub open spec fn hex_digit_char(d: u8, upper: bool) -> char {
    if d < 10 {
        (48 + d) as char
    } else if upper {
        (55 + d) as char
    } else {
        (87 + d) as char
    }
}

/// Hex digits for the bytes of `b`, two per byte, high digit first;
/// upper-case when `upper` holds, lower-case otherwise.
pub open spec fn hex_text(b: Seq<u8>, upper: bool) -> Seq<char>
    decreases b.len(),
{
    if b.len() == 0 {
        seq![]
    } else {
        seq![hex_digit_char(b[0] / 16, upper), hex_digit_char(b[0] % 16, upper)] + hex_text(
            b.drop_first(),
            upper,
        )
    }
}

proof fn lemma_hex_text_facts(b: Seq<u8>, upper: bool)
    ensures
        hex_text(b, upper).len() == 2 * b.len(),
        forall|i: int|
            0 <= i < hex_text(b, upper).len() ==> {
                let c = #[trigger] hex_text(b, upper)[i];
                &&& ('0' <= c <= '9' || 'a' <= c <= 'f' || 'A' <= c <= 'F')
                &&& c as u32 == (c as u8) as u32
            },
    decreases b.len(),
{
    if b.len() > 0 {
        lemma_hex_text_facts(b.drop_first(), upper);
        assert forall|i: int| 0 <= i < hex_text(b, upper).len() implies {
            let c = #[trigger] hex_text(b, upper)[i];
            &&& ('0' <= c <= '9' || 'a' <= c <= 'f' || 'A' <= c <= 'F')
            &&& c as u32 == (c as u8) as u32
        } by {
            if i >= 2 {
                assert(hex_text(b, upper)[i] == hex_text(b.drop_first(), upper)[i - 2]);
            }
        }
    }
}

proof fn lemma_hex_pairs_of_text(b: Seq<u8>, upper: bool, bytes: Seq<u8>)
    requires
        bytes.len() == hex_text(b, upper).len(),
        forall|i: int|
            0 <= i < bytes.len() ==> bytes[i] as char == #[trigger] hex_text(b, upper)[i],
    ensures
        hex_pairs(bytes) == Ok::<Seq<u8>, SecretError>(b),
    decreases b.len(),
{
    lemma_hex_text_facts(b, upper);
    if b.len() > 0 {
        let rest = b.drop_first();
        lemma_hex_text_facts(rest, upper);
        assert forall|i: int| 0 <= i < bytes.skip(2).len() implies bytes.skip(2)[i] as char
            == #[trigger] hex_text(rest, upper)[i] by {
            assert(hex_text(b, upper)[i + 2] == hex_text(rest, upper)[i]);
        }
        lemma_hex_pairs_of_text(rest, upper, bytes.skip(2));
        let hi = b[0] / 16;
        let lo = b[0] % 16;
        assert(hex_text(b, upper)[0] == hex_digit_char(hi, upper));
        assert(hex_text(b, upper)[1] == hex_digit_char(lo, upper));
        assert(bytes[0] as char == hex_text(b, upper)[0]);
        assert(bytes[1] as char == hex_text(b, upper)[1]);
        assert(bytes[0] as char == hex_digit_char(hi, upper));
        assert(bytes[1] as char == hex_digit_char(lo, upper));
        assert(hex_digit_value(hex_digit_char(hi, upper)) == Some(hi));
        assert(hex_digit_value(hex_digit_char(lo, upper)) == Some(lo));
        assert((hi * 16 + lo) as u8 == b[0]);
        assert(seq![b[0]] + rest =~= b);
    } else {
        assert(b =~= Seq::<u8>::empty());
    }
}

/// Hex text decodes to the bytes that its digits spell: for every non-empty
/// byte string, writing it as hex, in lower or in upper case, and decoding
/// gives the bytes back.
#[verifier::spinoff_prover]
#[verifier::rlimit(40)]
pub proof fn law_hex_secret_round_trip(b: Seq<u8>, upper: bool)
    requires
        b.len() > 0,
    ensures
        hex_secret(hex_text(b, upper)) == Ok::<Seq<u8>, SecretError>(b),
{
    let h = hex_text(b, upper);
    lemma_hex_text_facts(b, upper);
    assert forall|i: int| 0 <= i < h.len() implies !is_hex_separator(#[trigger] h[i]) by {}
    assert(hex_cleaned(h) == h) by {
        lemma_filter_all_kept(h);
    }
    assert(vstd::utf8::is_ascii_chars(h));
    vstd::utf8::is_ascii_chars_encode_utf8(h);
    let bytes = encode_utf8(h);
    assert forall|i: int| 0 <= i < bytes.len() implies bytes[i] as char == #[trigger] h[i] by {
        assert(h[i] as u8 == bytes[i]);
    }
    lemma_hex_pairs_of_text(b, upper, bytes);
}

/// A `hex:` response decodes to the bytes that its digits spell: for every
/// non-empty byte string, writing it as hex (either case) behind `hex:` and
/// decoding gives the bytes back.
#[verifier::spinoff_prover]
#[verifier::rlimit(40)]
pub proof fn law_hex_response_round_trip(b: Seq<u8>, upper: bool)
    requires
        b.len() > 0,
    ensures
        hardware_secret(hex_prefix() + hex_text(b, upper)) == Ok::<Seq<u8>, SecretError>(b),
{
    let h = hex_text(b, upper);
    let s = hex_prefix() + h;
    lemma_hex_text_facts(b, upper);
    assert(s[0] == 'h');
    assert(trim_start(s) == s);
    assert(s.last() == h.last());
    assert(trim_end(s) == s);
    assert(s.take(4) =~= hex_prefix());
    assert(s.skip(4) =~= h);
    law_hex_secret_round_trip(b, upper);
}

proof fn lemma_filter_all_kept(s: Seq<char>)
    requires
        forall|i: int| 0 <= i < s.len() ==> !is_hex_separator(#[trigger] s[i]),
    ensures
        s.filter(|c: char| !is_hex_separator(c)) == s,
    decreases s.len(),
{
    reveal(Seq::filter);
    if s.len() > 0 {
        lemma_filter_all_kept(s.drop_last());
        assert(s.drop_last().push(s.last()) =~= s);
    }
}

} // verus!
