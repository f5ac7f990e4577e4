//! Hexadecimal text: the `0x`-prefixed form in which 32-byte keys and
//! hashes travel as strings.
use vstd::prelude::*;
use vstd::string::*;
use vstd::utf8::*;

verus! {

broadcast use vstd::utf8::group_utf8_lib;

/// The lower-case hex digit (`0`-`9`, `a`-`f`) for a value below 16.
pub open spec fn hex_digit_lower(n: int) -> char {
    if n < 10 {
        (48 + n) as char
    } else {
        (87 + n) as char
    }
}

/// The lower-case hexadecimal text of a byte string: two digits per byte,
/// high nibble first.
pub open spec fn lower_hex(bytes: Seq<u8>) -> Seq<char> {
    Seq::new(
        2 * bytes.len(),
        |i: int|
            if i % 2 == 0 {
                hex_digit_lower(bytes[i / 2] as int / 16)
            } else {
                hex_digit_lower(bytes[i / 2] as int % 16)
            },
    )
}

/// `0x` followed by the lower-case hexadecimal text of `bytes`.
pub open spec fn prefixed_lower_hex(bytes: Seq<u8>) -> Seq<char> {
    seq!['0', 'x'] + lower_hex(bytes)
}

/// The value of an ASCII hex digit of either case, or `None` for any other byte.
pub open spec fn hex_digit_value(c: u8) -> Option<u8> {
    if 48 <= c <= 57 {
        Some((c - 48) as u8)
    } else if 65 <= c <= 70 {
        Some((c - 55) as u8)
    } else if 97 <= c <= 102 {
        Some((c - 87) as u8)
    } else {
        None
    }
}

/// The text decodes as hexadecimal: an even number of bytes, each a hex digit
/// of either case.
pub open spec fn hex_decodable(text: Seq<u8>) -> bool {
    &&& text.len() % 2 == 0
    &&& forall|i: int| 0 <= i < text.len() ==> (#[trigger] hex_digit_value(text[i])) is Some
}

/// The bytes that a decodable hex text stands for: each pair of digits gives
/// one byte, the first digit being the high nibble.
pub open spec fn hex_decoded(text: Seq<u8>) -> Seq<u8> {
    Seq::new(
        text.len() / 2,
        |i: int|
            (hex_digit_value(text[2 * i])->Some_0 * 16 + hex_digit_value(
                text[2 * i + 1],
            )->Some_0) as u8,
    )
}

/// Why a string is not the `0x`-prefixed hex form of 32 bytes.
#[derive(Clone, Copy, Debug, PartialEq, Eq, Structural)]
pub enum HexKeyError {
    /// The string does not start with `0x`, or is not 66 bytes long.
    NotPrefixedHex32,
    /// The 64 bytes after the prefix are not all hex digits.
    InvalidHexDigit,
}

/// The 32 bytes that the UTF-8 text `text` stands for, when it is `0x`
/// followed by 64 hex digits of either case.
pub open spec fn parse_prefixed_hex32(text: Seq<u8>) -> Result<Seq<u8>, HexKeyError> {
    if !(text.len() == 66 && text[0] == 48u8 && text[1] == 120u8) {
        Err(HexKeyError::NotPrefixedHex32)
    } else if !hex_decodable(text.subrange(2, 66)) {
        Err(HexKeyError::InvalidHexDigit)
    } else {
        Ok(hex_decoded(text.subrange(2, 66)))
    }
}

/// The text is 66 bytes long and starts with the two bytes `0` and `x`
/// (lower case).
pub open spec fn has_hex32_prefix_and_length(text: Seq<u8>) -> bool {
    &&& text.len() == 66
    &&& text[0] == 48u8
    &&& text[1] == 120u8
}

/// The text is `0x` (lower-case `x`) followed by exactly 64 hex digits of
/// either case.
pub open spec fn is_prefixed_hex32_text(text: Seq<u8>) -> bool {
    &&& has_hex32_prefix_and_length(text)
    &&& forall|i: int| 2 <= i < 66 ==> (#[trigger] hex_digit_value(text[i])) is Some
}

/// What a reader of `0x` + 64 hex digits owes for the text `text`, with
/// `res` the bytes it read or its error: it accepts exactly the texts of that
/// form; the bytes it reads, written back as `0x` + lower-case hex, give the
/// text with its letters in lower case; and it refuses with `format_error` a
/// text that is not 66 bytes starting with `0x`, and with `digit_error` any
/// other text that it refuses.
pub open spec fn reads_prefixed_hex32(
    text: Seq<u8>,
    res: Result<Seq<u8>, &'static str>,
    format_error: &'static str,
    digit_error: &'static str,
) -> bool {
    &&& res is Ok <==> is_prefixed_hex32_text(text)
    &&& res matches Ok(bytes) ==> encode_utf8(prefixed_lower_hex(bytes)) == ascii_lowercase(text)
    &&& !has_hex32_prefix_and_length(text) ==> res == Err::<Seq<u8>, &'static str>(format_error)
    &&& has_hex32_prefix_and_length(text) && !is_prefixed_hex32_text(text) ==> res == Err::<
        Seq<u8>,
        &'static str,
    >(digit_error)
}

/// Which texts the reader of `0x` + 64 hex digits accepts, and which error
/// it gives for the others.
pub proof fn lemma_parse_prefixed_hex32_cases(text: Seq<u8>)
    ensures
        parse_prefixed_hex32(text) is Ok <==> is_prefixed_hex32_text(text),
        parse_prefixed_hex32(text) is Ok ==> parse_prefixed_hex32(text)->Ok_0.len() == 32,
        !has_hex32_prefix_and_length(text) ==> parse_prefixed_hex32(text) == Err::<
            Seq<u8>,
            HexKeyError,
        >(HexKeyError::NotPrefixedHex32),
        has_hex32_prefix_and_length(text) && !is_prefixed_hex32_text(text) ==> parse_prefixed_hex32(
            text,
        ) == Err::<Seq<u8>, HexKeyError>(HexKeyError::InvalidHexDigit),
{
    if has_hex32_prefix_and_length(text) {
        let digits = text.subrange(2, 66);
        if is_prefixed_hex32_text(text) {
            assert forall|i: int| 0 <= i < digits.len() implies (#[trigger] hex_digit_value(
                digits[i],
            )) is Some by {
                assert(digits[i] == text[i + 2]);
            }
        }
        if hex_decodable(digits) {
            assert forall|i: int| 2 <= i < 66 implies (#[trigger] hex_digit_value(text[i])) is Some by {
                assert(digits[i - 2] == text[i]);
            }
        }
    }
}

/// The array whose first `n` bytes are those of `s` and whose other bytes are 0.
pub open spec fn bytes32_prefix(s: Seq<u8>, n: nat) -> [u8; 32]
    decreases n,
{
    if n == 0 {
        vstd::array::spec_array_fill_for_copy_type::<u8, 32>(0u8)
    } else {
        vstd::array::spec_array_update(bytes32_prefix(s, (n - 1) as nat), n - 1, s[n - 1])
    }
}

/// The array of 32 bytes that holds `s`.
pub open spec fn bytes32(s: Seq<u8>) -> [u8; 32] {
    bytes32_prefix(s, 32)
}

proof fn lemma_bytes32_prefix(s: Seq<u8>, n: nat)
    requires
        n <= 32,
        s.len() == 32,
    ensures
        bytes32_prefix(s, n)@.len() == 32,
        forall|i: int| 0 <= i < n ==> #[trigger] bytes32_prefix(s, n)@[i] == s[i],
    decreases n,
{
    broadcast use vstd::array::group_array_axioms;

    if n == 0 {
        let a = vstd::array::spec_array_fill_for_copy_type::<u8, 32>(0u8);
        assert(a@.len() == 32);
    } else {
        lemma_bytes32_prefix(s, (n - 1) as nat);
        let prev = bytes32_prefix(s, (n - 1) as nat);
        assert(bytes32_prefix(s, n)@ == prev@.update(n - 1, s[n - 1]));
    }
}

/// The array built from 32 bytes holds exactly those bytes.
pub proof fn lemma_bytes32_of_seq(s: Seq<u8>)
    requires
        s.len() == 32,
    ensures
        bytes32(s)@ == s,
{
    lemma_bytes32_prefix(s, 32);
    assert(bytes32(s)@ =~= s);
}

/// Building an array from the bytes of an array gives that array back.
pub proof fn lemma_bytes32_view(a: [u8; 32])
    ensures
        bytes32(a@) == a,
{
    broadcast use vstd::array::group_array_axioms;

    lemma_bytes32_of_seq(a@);
    let b = bytes32(a@);
    assert(b =~= a);
}

/// ASCII upper-case letters become lower case; every other byte is kept.
pub open spec fn ascii_lowercase(text: Seq<u8>) -> Seq<u8> {
    text.map_values(|c: u8| if 65 <= c <= 90 { (c + 32) as u8 } else { c })
}

/// A lower-case hex digit is ASCII, and reading it back gives its value.
proof fn lemma_hex_digit_lower(n: int)
    requires
        0 <= n < 16,
    ensures
        '\0' <= hex_digit_lower(n) <= '\u{7f}',
        hex_digit_value(hex_digit_lower(n) as u8) == Some(n as u8),
{
}

/// The text `0x` + lower-case hex is ASCII.
proof fn lemma_prefixed_lower_hex_ascii(bytes: Seq<u8>)
    ensures
        is_ascii_chars(prefixed_lower_hex(bytes)),
        prefixed_lower_hex(bytes).len() == 2 + 2 * bytes.len(),
{
    let c = prefixed_lower_hex(bytes);
    assert forall|i: int| 0 <= i < c.len() implies '\0' <= #[trigger] c[i] <= '\u{7f}' by {
        if i >= 2 {
            let k = i - 2;
            if k % 2 == 0 {
                lemma_hex_digit_lower(bytes[k / 2] as int / 16);
            } else {
                lemma_hex_digit_lower(bytes[k / 2] as int % 16);
            }
        }
    }
}

/// Writing 32 bytes as `0x` + lower-case hex, and reading the text back,
/// gives the same 32 bytes.
pub proof fn lemma_prefixed_hex32_roundtrip(bytes: Seq<u8>)
    requires
        bytes.len() == 32,
    ensures
        parse_prefixed_hex32(encode_utf8(prefixed_lower_hex(bytes))) == Ok::<Seq<u8>, HexKeyError>(
            bytes,
        ),
{
    let c = prefixed_lower_hex(bytes);
    lemma_prefixed_lower_hex_ascii(bytes);
    is_ascii_chars_encode_utf8(c);
    let text = encode_utf8(c);
    let digits = text.subrange(2, 66);
    assert(text[0] == 48u8 && text[1] == 120u8) by {
        assert(c[0] == '0' && c[1] == 'x');
    }
    assert forall|k: int| 0 <= k < 64 implies #[trigger] digits[k] == (lower_hex(bytes)[k] as u8) by {
        assert(c[k + 2] == lower_hex(bytes)[k]);
        assert(text[k + 2] == c[k + 2] as u8);
    }
    assert forall|k: int| 0 <= k < 64 implies hex_digit_value(#[trigger] digits[k]) == Some(
        (if k % 2 == 0 { bytes[k / 2] as int / 16 } else { bytes[k / 2] as int % 16 }) as u8,
    ) by {
        if k % 2 == 0 {
            lemma_hex_digit_lower(bytes[k / 2] as int / 16);
        } else {
            lemma_hex_digit_lower(bytes[k / 2] as int % 16);
        }
    }
    assert(hex_decodable(digits));
    assert forall|i: int| 0 <= i < 32 implies #[trigger] hex_decoded(digits)[i] == bytes[i] by {
        assert(hex_digit_value(digits[2 * i]) == Some((bytes[i] as int / 16) as u8));
        assert(hex_digit_value(digits[2 * i + 1]) == Some((bytes[i] as int % 16) as u8));
    }
    assert(hex_decoded(digits) =~= bytes);
}

/// A string accepted as `0x` + 64 hex digits, written back as `0x` +
/// lower-case hex, is the string it was read from with its letters in lower case.
pub proof fn lemma_prefixed_hex32_normalizes(text: Seq<u8>)
    requires
        parse_prefixed_hex32(text) is Ok,
    ensures
        encode_utf8(prefixed_lower_hex(parse_prefixed_hex32(text)->Ok_0)) == ascii_lowercase(text),
{
    let digits = text.subrange(2, 66);
    let bytes = hex_decoded(digits);
    let c = prefixed_lower_hex(bytes);
    lemma_prefixed_lower_hex_ascii(bytes);
    is_ascii_chars_encode_utf8(c);
    let out = encode_utf8(c);
    let low = ascii_lowercase(text);
    assert forall|i: int| 0 <= i < 66 implies #[trigger] out[i] == low[i] by {
        assert(out[i] == c[i] as u8);
        if i >= 2 {
            let k = i - 2;
            let j = k / 2;
            let hi = hex_digit_value(digits[2 * j])->Some_0 as int;
            let lo = hex_digit_value(digits[2 * j + 1])->Some_0 as int;
            assert(hex_digit_value(digits[2 * j]) is Some);
            assert(hex_digit_value(digits[2 * j + 1]) is Some);
            assert(bytes[j] == hi * 16 + lo);
            assert(bytes[j] as int / 16 == hi);
            assert(bytes[j] as int % 16 == lo);
            assert(digits[k] == text[i]);
        }
    }
    assert(out =~= low);
}

/// The error of `hex::decode`, carried as an opaque value: which error it is
/// does not matter to the readers here.
#[verifier::external_type_specification]
#[verifier::external_body]
pub struct ExFromHexError(hex::FromHexError);

/// Calls `hex::encode`, which writes each byte as two lower-case hex digits,
/// high nibble first (its table is `0123456789abcdef`).
#[verifier::external_body]
fn hex_encode(data: &[u8]) -> (text: String)
    ensures
        text@ == lower_hex(data@),
{
    hex::encode(data)
}

/// Calls `hex::decode`: it fails on text of odd length or with a byte that is
/// not a hex digit of either case, and otherwise turns each pair of digits
/// into one byte.
#[verifier::external_body]
fn hex_decode(text: &[u8]) -> (res: Result<Vec<u8>, hex::FromHexError>)
    ensures
        match res {
            Ok(bytes) => hex_decodable(text@) && bytes@ == hex_decoded(text@),
            Err(_) => !hex_decodable(text@),
        },
{
    hex::decode(text)
}

/// `0x` followed by the lower-case hex text of `bytes`.
pub fn encode_prefixed_hex(bytes: &[u8]) -> (text: String)
    ensures
        text@ == prefixed_lower_hex(bytes@),
{
    let digits = hex_encode(bytes);
    let mut text = String::from_str("0x");
    proof {
        reveal_strlit("0x");
    }
    text.append(digits.as_str());
    text
}

/// Reads a string of the form `0x` followed by 64 hex digits (either case)
/// as the 32 bytes that it stands for.
pub fn decode_prefixed_hex32(value: &str) -> (res: Result<[u8; 32], HexKeyError>)
    ensures
        match res {
            Ok(bytes) => parse_prefixed_hex32(value.spec_bytes()) == Ok::<Seq<u8>, HexKeyError>(
                bytes@,
            ),
            Err(e) => parse_prefixed_hex32(value.spec_bytes()) == Err::<Seq<u8>, HexKeyError>(e),
        },
        res is Ok <==> is_prefixed_hex32_text(value.spec_bytes()),
{
    proof {
        lemma_parse_prefixed_hex32_cases(value.spec_bytes());
    }
    let text = value.as_bytes();
    if !(text.len() >= 2 && text[0] == 48u8 && text[1] == 120u8) || text.len() != 66 {
        return Err(HexKeyError::NotPrefixedHex32);
    }
    let mut digits: Vec<u8> = Vec::with_capacity(64);
    let mut i: usize = 2;
    while i < 66
        invariant
            text@.len() == 66,
            2 <= i <= 66,
            digits@ == text@.subrange(2, i as int),
        decreases 66 - i,
    {
        digits.push(text[i]);
        i = i + 1;
    }
    let decoded = match hex_decode(digits.as_slice()) {
        Ok(bytes) => bytes,
        Err(_) => return Err(HexKeyError::InvalidHexDigit),
    };
    assert(decoded@.len() == 32);
    let mut key = [0u8; 32];
    let mut j: usize = 0;
    while j < 32
        invariant
            decoded@.len() == 32,
            0 <= j <= 32,
            forall|k: int| 0 <= k < j ==> key@[k] == decoded@[k],
        decreases 32 - j,
    {
        key[j] = decoded[j];
        j = j + 1;
    }
    assert(key@ =~= decoded@);
    Ok(key)
}

/// The result of [`parse_prefixed_hex32`] with each error replaced by its
/// message.
pub open spec fn parse_prefixed_hex32_or(
    text: Seq<u8>,
    format_error: &'static str,
    digit_error: &'static str,
) -> Result<Seq<u8>, &'static str> {
    match parse_prefixed_hex32(text) {
        Ok(bytes) => Ok(bytes),
        Err(HexKeyError::NotPrefixedHex32) => Err(format_error),
        Err(HexKeyError::InvalidHexDigit) => Err(digit_error),
    }
}

/// The reader of `0x` + 64 hex digits owes what [`reads_prefixed_hex32`] says.
pub proof fn lemma_reads_prefixed_hex32(
    text: Seq<u8>,
    format_error: &'static str,
    digit_error: &'static str,
)
    ensures
        reads_prefixed_hex32(
            text,
            parse_prefixed_hex32_or(text, format_error, digit_error),
            format_error,
            digit_error,
        ),
        parse_prefixed_hex32(text) matches Ok(bytes) ==> bytes.len() == 32,
{
    lemma_parse_prefixed_hex32_cases(text);
    if parse_prefixed_hex32(text) is Ok {
        lemma_prefixed_hex32_normalizes(text);
    }
}

} // verus!
