//! Identifiers, digests and the clock.
use vstd::prelude::*;
use vstd::string::*;

verus! {

/// The SHA-256 digest of a sequence of bytes.
pub uninterp spec fn sha256_digest(data: Seq<u8>) -> Seq<u8>;

/// The lower-case hexadecimal digit for a value below sixteen.
pub open spec fn hex_digit(v: int) -> char {
    if v == 0 {
        '0'
    } else if v == 1 {
        '1'
    } else if v == 2 {
        '2'
    } else if v == 3 {
        '3'
    } else if v == 4 {
        '4'
    } else if v == 5 {
        '5'
    } else if v == 6 {
        '6'
    } else if v == 7 {
        '7'
    } else if v == 8 {
        '8'
    } else if v == 9 {
        '9'
    } else if v == 10 {
        'a'
    } else if v == 11 {
        'b'
    } else if v == 12 {
        'c'
    } else if v == 13 {
        'd'
    } else if v == 14 {
        'e'
    } else {
        'f'
    }
}

/// `c` is a lower-case hexadecimal digit.
pub open spec fn is_hex_digit(c: char) -> bool {
    ('0' <= c && c <= '9') || ('a' <= c && c <= 'f')
}

/// Bytes written as lower-case hexadecimal, two digits a byte, high half
/// first.
pub open spec fn hex_text(bytes: Seq<u8>) -> Seq<char> {
    Seq::new(
        2 * bytes.len(),
        |i: int|
            if i % 2 == 0 {
                hex_digit(bytes[i / 2] as int / 16)
            } else {
                hex_digit(bytes[i / 2] as int % 16)
            },
    )
}

/// Every character of `s` is a lower-case hexadecimal digit.
pub open spec fn all_hex_digits(s: Seq<char>) -> bool {
    forall|i: int| 0 <= i < s.len() ==> is_hex_digit(#[trigger] s[i])
}

/// Bytes written as hexadecimal are hexadecimal digits, two for each byte.
pub proof fn lemma_hex_text_is_hex(bytes: Seq<u8>)
    ensures
        hex_text(bytes).len() == 2 * bytes.len(),
        all_hex_digits(hex_text(bytes)),
{
    assert forall|i: int| 0 <= i < hex_text(bytes).len() implies is_hex_digit(
        #[trigger] hex_text(bytes)[i],
    ) by {
        let b = bytes[i / 2] as int;
        assert(0 <= b / 16 < 16);
        assert(0 <= b % 16 < 16);
    }
}

/// The text of a version 4 UUID in its hyphenated lower-case form: 36
/// characters, hyphens after the 8th, 12th, 16th and 20th digit, the version
/// digit `4` and a variant digit from `8` to `b`.
pub open spec fn is_uuid_v4_text(s: Seq<char>) -> bool {
    &&& s.len() == 36
    &&& forall|i: int|
        0 <= i < 36 ==> if i == 8 || i == 13 || i == 18 || i == 23 {
            #[trigger] s[i] == '-'
        } else {
            is_hex_digit(s[i])
        }
    &&& s[14] == '4'
    &&& (s[19] == '8' || s[19] == '9' || s[19] == 'a' || s[19] == 'b')
}

/// The digest under which a credential or a fresh identifier is stored: the
/// SHA-256 digest of the text's UTF-8 bytes, in lower-case hexadecimal.
pub open spec fn hash_text(input: Seq<char>) -> Seq<char> {
    hex_text(sha256_digest(vstd::utf8::encode_utf8(input)))
}

/// `uuid::Uuid::new_v4`, printed by the `Display` of `Uuid`. The identifier is
/// random; the contract states the shape that every outcome has.
#[verifier::external_body]
fn new_v4_text() -> (r: String)
    ensures
        is_uuid_v4_text(r@),
{
    uuid::Uuid::new_v4().to_string()
}

/// `sha2::Sha256::digest`, the one-shot form of `sha2::Digest`. The result is
/// SHA-256 of the input, 32 bytes long.
#[verifier::external_body]
fn sha256(data: &[u8]) -> (r: Vec<u8>)
    ensures
        r@ == sha256_digest(data@),
        r@.len() == 32,
{
    <sha2::Sha256 as sha2::Digest>::digest(data).to_vec()
}

/// `hex_fmt::HexFmt` printed by its `Display` without width or precision,
/// which writes every byte as two lower-case hexadecimal digits and shortens
/// nothing.
#[verifier::external_body]
fn lower_hex(bytes: &[u8]) -> (r: String)
    requires
        2 * bytes@.len() <= usize::MAX,
    ensures
        r@ == hex_text(bytes@),
{
    hex_fmt::HexFmt(bytes).to_string()
}

/// `std::time::SystemTime`, a reading of the system clock.
#[verifier::external_type_specification]
#[verifier::external_body]
pub struct ExSystemTime(std::time::SystemTime);

/// `std::time::SystemTimeError`, returned when one reading lies before another.
#[verifier::external_type_specification]
#[verifier::external_body]
pub struct ExSystemTimeError(std::time::SystemTimeError);

/// `SystemTime::now`: reads the clock. Nothing is known of the reading.
pub assume_specification[ std::time::SystemTime::now ]() -> (t: std::time::SystemTime);

/// `SystemTime::duration_since` with `UNIX_EPOCH` as the earlier reading: the
/// time that passed since the start of 1970, or an error when the clock
/// reads a moment before it.
#[verifier::external_body]
fn since_epoch(now: &std::time::SystemTime) -> (r: Result<
    std::time::Duration,
    std::time::SystemTimeError,
>) {
    now.duration_since(std::time::UNIX_EPOCH)
}

/// The whole milliseconds that a duration holds.
pub uninterp spec fn duration_millis(d: std::time::Duration) -> u128;

/// `Duration::as_millis`: a duration in whole milliseconds. The count
/// depends on the duration alone; the contract gives it its name.
pub assume_specification[ std::time::Duration::as_millis ](d: &std::time::Duration) -> (ms: u128)
    ensures
        ms == duration_millis(*d),
;

/// The timestamp that a reading of the clock against the start of 1970
/// amounts to: the whole milliseconds that passed since then, and 0 for a
/// clock that reads a moment before it.
pub open spec fn timestamp_of_reading(
    reading: Result<std::time::Duration, std::time::SystemTimeError>,
) -> u128 {
    match reading {
        Ok(since) => duration_millis(since),
        Err(_) => 0,
    }
}

/// A fresh random identifier in the text form of a version 4 UUID.
pub fn uuid() -> (r: String)
    ensures
        is_uuid_v4_text(r@),
{
    new_v4_text()
}

/// The one-way digest of `input`: SHA-256 of its UTF-8 bytes, written as 64
/// lower-case hexadecimal digits. The same input always gives the same digest.
pub fn hash(input: String) -> (r: String)
    ensures
        r@ == hash_text(input@),
        r@.len() == 64,
        all_hex_digits(r@),
{
    let digest = sha256(input.as_str().as_bytes());
    proof {
        lemma_hex_text_is_hex(digest@);
    }
    lower_hex(digest.as_slice())
}

/// A fresh opaque identifier: the digest of a fresh UUID.
pub fn random_id() -> (r: String)
    ensures
        r@.len() == 64,
        all_hex_digits(r@),
        exists|u: Seq<char>| is_uuid_v4_text(u) && r@ == hash_text(u),
{
    let u = uuid();
    hash(u)
}

/// The timestamp for a reading of the clock against the start of 1970: the
/// time that passed in whole milliseconds, or 0 where the clock read a
/// moment before 1970.
pub fn timestamp_of(reading: Result<std::time::Duration, std::time::SystemTimeError>) -> (r: u128)
    ensures
        r == timestamp_of_reading(reading),
{
    match reading {
        Ok(time_since) => time_since.as_millis(),
        Err(_) => 0,
    }
}

/// Milliseconds since the start of 1970, as the system clock reads now. A
/// clock set before 1970 reads as 0. Which reading the clock gives is not
/// known; the result is the timestamp of that reading.
pub fn unix_epoch_timestamp() -> (r: u128)
    ensures
        exists|reading: Result<std::time::Duration, std::time::SystemTimeError>|
            r == timestamp_of_reading(reading),
{
    let right_now = std::time::SystemTime::now();
    let reading = since_epoch(&right_now);
    let r = timestamp_of(reading);
    assert(r == timestamp_of_reading(reading));
    r
}

} // verus!
