use vstd::prelude::*;

use crate::codes::{qos_of_value, QoS, ResultCode};
use crate::error::Error;

verus! {

/// The unsigned number that a byte sequence spells in big-endian order.
pub open spec fn be_value(s: Seq<u8>) -> nat
    decreases s.len(),
{
    if s.len() == 0 {
        0
    } else {
        be_value(s.drop_last()) * 256 + s.last() as nat
    }
}

/// Calls `uuid::Uuid::from_slice` and reads the uuid as a number.
///
/// Per the uuid crate, `from_slice` fails exactly when the slice is not 16 bytes long, and
/// `as_u128` reads the 16 bytes in big-endian order.
#[verifier::external_body]
pub(crate) fn uuid_from_slice(b: &[u8]) -> (r: Option<u128>)
    ensures
        r is Some <==> b@.len() == 16,
        r matches Some(v) ==> v == be_value(b@),
{
    match uuid::Uuid::from_slice(b) {
        Ok(u) => Some(u.as_u128()),
        Err(_) => None,
    }
}

/// Calls `uuid::Uuid::from_u128` and gives its 16 bytes.
///
/// Per the uuid crate, `from_u128` stores the number's big-endian bytes and `as_bytes` gives
/// them back.
#[verifier::external_body]
fn uuid_to_bytes(v: u128) -> (r: Vec<u8>)
    ensures
        r@.len() == 16,
        be_value(r@) == v,
{
    uuid::Uuid::from_u128(v).as_bytes().to_vec()
}

/// The lowercase hexadecimal digit of `d`, for `d` below 16.
pub open spec fn hex_digit(d: int) -> char {
    if d < 10 {
        (48 + d) as char
    } else {
        (87 + d) as char
    }
}

/// The index, among the 32 hexadecimal digits of a uuid, of the digit at place `j` of its
/// hyphenated text.
pub open spec fn digit_index(j: int) -> int {
    if j < 8 {
        j
    } else if j < 13 {
        j - 1
    } else if j < 18 {
        j - 2
    } else if j < 23 {
        j - 3
    } else {
        j - 4
    }
}

/// The hyphenated text of a uuid read as a number: its 32 lowercase hexadecimal digits, most
/// significant first, in groups of 8, 4, 4, 4 and 12 joined by `-`.
pub open spec fn hyphenated(v: u128) -> Seq<char> {
    Seq::new(
        36,
        |j: int|
            if j == 8 || j == 13 || j == 18 || j == 23 {
                '-'
            } else {
                hex_digit(
                    (v as int / vstd::arithmetic::power::pow(16, (31 - digit_index(j)) as nat)) % 16,
                )
            },
    )
}

/// Calls `uuid::Uuid::from_u128` and formats the uuid with `to_string`.
///
/// Per the uuid crate, a uuid displays as its lowercase hyphenated text, and `from_u128`
/// takes the number's big-endian bytes.
#[verifier::external_body]
pub(crate) fn uuid_text(v: u128) -> (r: String)
    ensures
        r@ == hyphenated(v),
{
    uuid::Uuid::from_u128(v).to_string()
}

/// The uuid that `uuid::Uuid::parse_str` reads from a text, as a number, or `None` where the
/// text is not a uuid.
pub uninterp spec fn uuid_parsed(s: Seq<char>) -> Option<u128>;

/// Calls `uuid::Uuid::parse_str` and reads the uuid as a number.
///
/// Per the uuid crate, `parse_str` reads each of the formats that the crate writes, the
/// lowercase hyphenated text among them; so the hyphenated text of a uuid reads as that uuid.
/// What it gives for other texts is left to the name `uuid_parsed`.
#[verifier::external_body]
pub(crate) fn uuid_parse(s: &str) -> (r: Option<u128>)
    ensures
        r == uuid_parsed(s@),
        forall|v: u128| s@ == hyphenated(v) ==> r == Some(v),
{
    match uuid::Uuid::parse_str(s) {
        Ok(u) => Some(u.as_u128()),
        Err(_) => None,
    }
}

/// Whether a uuid read as a number is of version 4 and of the RFC 4122 variant.
pub open spec fn is_random_uuid(v: u128) -> bool {
    &&& (v >> 76u128) & 0xf == 4
    &&& (v >> 62u128) & 0x3 == 2
}

/// Calls `uuid::Builder::from_random_bytes` on the big-endian bytes of `r`.
///
/// Per the uuid crate, the builder keeps the bytes and only sets the version (the high half
/// of byte 6, to 4) and the variant (the two high bits of byte 8, to `10`).
#[verifier::external_body]
fn uuid_from_random(r: u128) -> (v: u128)
    ensures
        v == (r & 0xffff_ffff_ffff_0fff_3fff_ffff_ffff_ffffu128) | 0x0000_0000_0000_4000_8000_0000_0000_0000u128,
{
    uuid::Builder::from_random_bytes(r.to_be_bytes()).into_uuid().as_u128()
}

/// Calls `rand::random` for 128 random bits.
///
/// Nothing is promised of the bits.
#[verifier::external_body]
fn random_bits() -> (r: u128) {
    rand::random::<u128>()
}

/// A fresh random uuid (version 4), read as a number.
pub fn random_uuid() -> (v: u128)
    ensures
        is_random_uuid(v),
{
    let r = random_bits();
    let v = uuid_from_random(r);
    assert(is_random_uuid(v)) by (bit_vector)
        requires
            v == (r & 0xffff_ffff_ffff_0fff_3fff_ffff_ffff_ffffu128) | 0x0000_0000_0000_4000_8000_0000_0000_0000u128;
    v
}

/// Reads a stream id from its 16 bytes.
pub fn parse_stream_id(bytes: &[u8]) -> (r: Result<u128, Error>)
    ensures
        r is Ok <==> bytes@.len() == 16,
        r matches Ok(v) ==> v == be_value(bytes@),
        r matches Err(e) ==> e matches Error::InvalidValue(m) && m@
            == "invalid bytes for stream id"@,
{
    match uuid_from_slice(bytes) {
        Some(v) => Ok(v),
        None => Err(Error::invalid_value("invalid bytes for stream id")),
    }
}

/// The 16 bytes of a stream id.
pub fn stream_id_to_bytes(stream_id: u128) -> (r: Vec<u8>)
    ensures
        r@.len() == 16,
        be_value(r@) == stream_id,
{
    uuid_to_bytes(stream_id)
}

/// Reads a time given in nanoseconds since the unix epoch; times before the epoch are refused.
pub fn unix_epoch_to_system_time(nsecs: i64) -> (r: Result<u64, Error>)
    ensures
        r is Ok <==> nsecs >= 0,
        r matches Ok(t) ==> t == nsecs,
        r matches Err(e) ==> e matches Error::InvalidValue(m) && m@ == "server time overflow"@,
{
    if nsecs < 0 {
        Err(Error::invalid_value("server time overflow"))
    } else {
        Ok(nsecs as u64)
    }
}

/// Reads a QoS from its wire value.
pub fn from_qos_i32(qos: i32) -> (r: Result<QoS, Error>)
    ensures
        r is Ok <==> qos_of_value(qos) is Some,
        r matches Ok(q) ==> qos_of_value(qos) == Some(q),
        r matches Err(e) ==> e is InvalidValue,
{
    match QoS::from_i32(qos) {
        Some(q) => Ok(q),
        None => Err(Error::invalid_value("invalid qos")),
    }
}

/// What a stream's resume loop does next.
#[derive(Clone, Copy, Debug, PartialEq, Eq, Structural)]
pub enum ResumeStep {
    /// Wait for the connection to come back.
    AwaitConnection,
    /// Give up on the stream.
    GiveUp,
    /// Ask the broker to resume the stream.
    RequestResume,
    /// Attach the stream to the connection.
    Attach,
}

/// The next step of a stream's resume loop: once the expiry interval has passed, the resume
/// has timed out; else, without a connection, wait for one; with one, ask for a resume when
/// one is needed (giving up when the stream cannot be resumed, its expiry interval being
/// zero), else attach the stream.
pub fn resume_step(connected: bool, need_resume: bool, expiry_is_zero: bool, expired: bool) -> (r:
    Result<ResumeStep, Error>)
    ensures
        expired ==> (r matches Err(Error::Timeout(m)) && m@ == ""@),
        !expired ==> r == Ok::<ResumeStep, Error>(
            if !connected {
                ResumeStep::AwaitConnection
            } else if need_resume {
                if expiry_is_zero {
                    ResumeStep::GiveUp
                } else {
                    ResumeStep::RequestResume
                }
            } else {
                ResumeStep::Attach
            },
        ),
{
    if expired {
        Err(Error::timeout(""))
    } else if !connected {
        Ok(ResumeStep::AwaitConnection)
    } else if need_resume {
        if expiry_is_zero {
            Ok(ResumeStep::GiveUp)
        } else {
            Ok(ResumeStep::RequestResume)
        }
    } else {
        Ok(ResumeStep::Attach)
    }
}

/// Whether a failed resume is tried again (after a wait): not when the broker no longer knows
/// the stream; yes when the error may pass or the broker answered with a result code; no
/// otherwise.
pub fn retry_resume(e: &Error) -> (r: bool)
    ensures
        r == (e.result_code_spec() != Some(ResultCode::StreamNotFound) && (e.can_retry_spec()
            || e.result_code_spec() is Some)),
{
    let code = e.result_code();
    let not_found = match code {
        Some(ResultCode::StreamNotFound) => true,
        _ => false,
    };
    if not_found {
        return false;
    }
    e.can_retry() || code.is_some()
}

} // verus!
