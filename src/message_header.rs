//! The 18-byte message header block.
use vstd::prelude::*;

use crate::bytes::{agrees, be_i16, be_i32, read_i16, read_i32, truncated};
use crate::codes::MessageCode;
use crate::error::Error;

verus! {

/// The number of bytes of the message header.
pub const MESSAGE_HEADER_LEN: usize = 18;

/// The number of seconds in a day.
pub const SECONDS_PER_DAY: i64 = 86400;

/// The message header block.
#[derive(Clone, Copy, Debug, PartialEq, Eq, Structural)]
pub struct MessageHeader {
    /// The message (product) code.
    pub code: MessageCode,
    /// The time of the message, in seconds since 1 January 1970 UTC.
    pub datetime: i64,
    /// The number of bytes of the message, header included.
    pub length: i32,
    /// The source id.
    pub source: i16,
    /// The destination id.
    pub dest: i16,
    /// The number of blocks: this header and the ones that follow.
    pub nblocks: i16,
}

impl View for MessageHeader {
    type V = MessageHeader;

    open spec fn view(&self) -> MessageHeader {
        *self
    }
}

/// The time `days` days and `seconds` seconds after the epoch, in seconds.
pub open spec fn epoch_seconds(days: i16, seconds: i32) -> i64 {
    (days * SECONDS_PER_DAY + seconds) as i64
}

/// The message header at the start of `s`, and the bytes it takes.
pub open spec fn parse_message_header(s: Seq<u8>) -> Result<(MessageHeader, nat), Error> {
    if s.len() < MESSAGE_HEADER_LEN {
        Err(truncated(MESSAGE_HEADER_LEN as nat, s))
    } else {
        Ok(
            (
                MessageHeader {
                    code: MessageCode::spec_from_value(be_i16(s, 0)),
                    datetime: epoch_seconds(be_i16(s, 2), be_i32(s, 4)),
                    length: be_i32(s, 8),
                    source: be_i16(s, 12),
                    dest: be_i16(s, 14),
                    nblocks: be_i16(s, 16),
                },
                MESSAGE_HEADER_LEN as nat,
            ),
        )
    }
}

/// Relies on chrono's DateTime::from_timestamp and DateTime::timestamp: a
/// whole-second count within about 34,000 years of the epoch is a
/// representable UTC time, and reading that time back gives the same count.
#[verifier::external_body]
fn utc_seconds(secs: i64) -> (r: Option<i64>)
    ensures
        r matches Some(t) ==> t == secs,
        -0x100_0000_0000 <= secs <= 0x100_0000_0000 ==> r == Some(secs),
{
    match chrono::DateTime::from_timestamp(secs, 0) {
        Some(t) => Some(t.timestamp()),
        None => None,
    }
}

/// The UTC time `days` days and `seconds` seconds after the epoch. A time
/// that UTC could not represent would give the epoch itself; no halfword day
/// count with a word of seconds comes near that range, so the time is exact.
fn timestamp(days: i16, seconds: i32) -> (r: i64)
    ensures
        r == epoch_seconds(days, seconds),
{
    let secs = days as i64 * SECONDS_PER_DAY + seconds as i64;
    match utc_seconds(secs) {
        Some(t) => t,
        None => 0,
    }
}

/// Decodes the message header at the start of `input`. An unknown message
/// code is kept as `MessageCode::Unknown`; it never fails the decode here.
pub fn message_header(input: &[u8]) -> (r: Result<(&[u8], MessageHeader), Error>)
    ensures
        agrees(r, input@, parse_message_header(input@)),
{
    if input.len() < MESSAGE_HEADER_LEN {
        return Err(Error::TruncatedInput { needed: MESSAGE_HEADER_LEN, had: input.len() });
    }
    let code = MessageCode::from_i16(read_i16(input, 0));
    let datetime = timestamp(read_i16(input, 2), read_i32(input, 4));
    let header = MessageHeader {
        code,
        datetime,
        length: read_i32(input, 8),
        source: read_i16(input, 12),
        dest: read_i16(input, 14),
        nblocks: read_i16(input, 16),
    };
    let (_, rest) = input.split_at(MESSAGE_HEADER_LEN);
    Ok((rest, header))
}

} // verus!
