//! Trusted boundary: the calls into `hex`, `base64`, `regex` and std that the
//! library makes, each with the contract that its source or documentation
//! shows. Nothing here is proved; everything else is proved against these.
use vstd::prelude::*;
use vstd::utf8::*;

verus! {

/// `hex::FromHexError`, carried through as an opaque value.
#[verifier::external_type_specification]
#[verifier::external_body]
pub struct ExFromHexError(hex::FromHexError);

/// `base64::DecodeError`, carried through as an opaque value.
#[verifier::external_type_specification]
#[verifier::external_body]
pub struct ExBase64DecodeError(base64::DecodeError);

/// The value of an ASCII hexadecimal digit byte (either case), as `hex` reads it.
pub open spec fn hex_digit_value(b: u8) -> Option<int> {
    if 0x30 <= b && b <= 0x39 {
        Some(b - 0x30)
    } else if 0x61 <= b && b <= 0x66 {
        Some(b - 0x61 + 10)
    } else if 0x41 <= b && b <= 0x46 {
        Some(b - 0x41 + 10)
    } else {
        None
    }
}

/// `data` is an even number of hexadecimal digit bytes.
pub open spec fn is_hex_text(data: Seq<u8>) -> bool {
    data.len() % 2 == 0 && forall|i: int| 0 <= i < data.len() ==> (#[trigger] hex_digit_value(
        data[i],
    )) is Some
}

/// The bytes that the digit pairs of `data` denote, high nibble first.
pub open spec fn hex_bytes(data: Seq<u8>) -> Seq<u8> {
    Seq::new(
        (data.len() / 2) as nat,
        |i: int|
            (hex_digit_value(data[2 * i])->0 * 16 + hex_digit_value(data[2 * i + 1])->0) as u8,
    )
}

/// `hex::decode` (hex 0.4.3, `FromHex for Vec<u8>`): an odd length is
/// `Err(OddLength)`, a byte outside `0-9a-fA-F` is `Err(InvalidHexCharacter)`,
/// and otherwise every pair of digits becomes one byte, high nibble first.
#[verifier::external_body]
pub(crate) fn hex_decode(data: &[u8]) -> (r: Result<Vec<u8>, hex::FromHexError>)
    ensures
        r is Ok <==> is_hex_text(data@),
        r matches Ok(v) ==> v@ == hex_bytes(data@),
{
    hex::decode(data)
}

/// What `base64::engine::general_purpose::STANDARD.decode` returns for `input`:
/// `Some` of the decoded bytes, or `None` where it returns a `DecodeError`.
pub uninterp spec fn base64_standard_decoded(input: Seq<u8>) -> Option<Seq<u8>>;

/// `base64::Engine::decode` with the `STANDARD` engine (standard alphabet,
/// canonical padding required). Its result is named, not stated: the contract
/// claims only that it is a function of the input bytes.
#[verifier::external_body]
pub(crate) fn base64_standard_decode(input: &[u8]) -> (r: Result<Vec<u8>, base64::DecodeError>)
    ensures
        match r {
            Ok(v) => base64_standard_decoded(input@) == Some(v@),
            Err(_) => base64_standard_decoded(input@) is None,
        },
{
    base64::Engine::decode(&base64::engine::general_purpose::STANDARD, input)
}

/// The view of one capture group: its text, or `None` where it did not take part.
pub open spec fn group_view(g: Option<String>) -> Option<Seq<char>> {
    match g {
        Some(s) => Some(s@),
        None => None,
    }
}

/// The view of the capture groups of one match.
pub open spec fn groups_view(v: Seq<Option<String>>) -> Seq<Option<Seq<char>>> {
    v.map_values(|g: Option<String>| group_view(g))
}

/// The view of the capture groups that a match hands out.
pub open spec fn captures_view(c: Option<Vec<Option<String>>>) -> Option<Seq<Option<Seq<char>>>> {
    match c {
        Some(v) => Some(groups_view(v@)),
        None => None,
    }
}

/// What compiling `pattern` with `regex::Regex::new` and calling `captures` on
/// `haystack` gives: `None` if the pattern does not compile or nothing matches,
/// otherwise the groups of the leftmost-first match, group 0 first.
pub uninterp spec fn regex_captures_of(pattern: Seq<char>, haystack: Seq<char>) -> Option<
    Seq<Option<Seq<char>>>,
>;

/// `regex::Regex::new(pattern)` followed by `Regex::captures(haystack)`, the
/// groups handed out as owned strings. The regex crate's matching (Unicode
/// classes, leftmost-first priority) is named, not stated: the contract claims
/// only that the groups are a function of the pattern and the haystack.
#[verifier::external_body]
pub(crate) fn regex_captures(pattern: &str, haystack: &str) -> (r: Option<Vec<Option<String>>>)
    ensures
        captures_view(r) == regex_captures_of(pattern@, haystack@),
{
    let caps = regex::Regex::new(pattern).ok()?.captures(haystack)?;
    Some(caps.iter().map(|g| g.map(|g| g.as_str().to_string())).collect())
}

/// `String::from_utf8`: `Some` exactly when `bytes` is valid UTF-8, holding the
/// characters that the bytes encode.
#[verifier::external_body]
pub(crate) fn string_from_utf8(bytes: Vec<u8>) -> (r: Option<String>)
    ensures
        r is Some <==> valid_utf8(bytes@),
        r matches Some(s) ==> s@ == decode_utf8(bytes@),
{
    String::from_utf8(bytes).ok()
}

/// `SystemTime::UNIX_EPOCH.elapsed()`: the time since the Unix epoch, or `None`
/// when the clock reads earlier. Nothing is claimed of the value.
#[verifier::external_body]
pub(crate) fn elapsed_since_unix_epoch() -> (r: Option<core::time::Duration>) {
    std::time::UNIX_EPOCH.elapsed().ok()
}

/// `Duration::as_millis`: the whole milliseconds of `d`. The duration is
/// opaque here, so nothing is claimed of the value.
#[verifier::external_body]
pub(crate) fn duration_as_millis(d: &core::time::Duration) -> (r: u128) {
    d.as_millis()
}

/// `String::push`: appends `c` at the end of `s`.
#[verifier::external_body]
pub(crate) fn push_char(s: &mut String, c: char)
    ensures
        final(s)@ == old(s)@.push(c),
{
    s.push(c);
}

/// `slice::sort_unstable` on `u32`s: the same values in ascending order.
#[verifier::external_body]
pub(crate) fn sort_u32s(v: &mut Vec<u32>)
    ensures
        final(v)@.to_multiset() == old(v)@.to_multiset(),
        forall|i: int, j: int| 0 <= i <= j < final(v)@.len() ==> final(v)@[i] <= final(v)@[j],
{
    v.sort_unstable();
}

} // verus!
