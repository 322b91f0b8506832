//! Text and special symbol packets (packet codes 1, 2 and 8); only code 8
//! carries a color level.
use vstd::prelude::*;
use vstd::utf8::{decode_utf8, valid_utf8};

use crate::bytes::{agrees, be_i16, read_i16, truncated};
use crate::codes::{PacketCode, TEXT_COLORED};
use crate::error::{Error, TextFault};
use crate::text::utf8_text;

verus! {

/// A text packet.
#[derive(Clone, Debug, PartialEq, Eq)]
pub struct TextPacket {
    pub packet_code: PacketCode,
    /// The number of bytes after the length field.
    pub length: i16,
    /// The color level, carried by packet code 8 only.
    pub color_level: Option<i16>,
    /// I coordinate of the start of the text.
    pub i_coord: i16,
    /// J coordinate of the start of the text.
    pub j_coord: i16,
    pub text: String,
}

pub struct TextPacketView {
    pub packet_code: PacketCode,
    pub length: i16,
    pub color_level: Option<i16>,
    pub i_coord: i16,
    pub j_coord: i16,
    pub text: Seq<char>,
}

impl View for TextPacket {
    type V = TextPacketView;

    open spec fn view(&self) -> TextPacketView {
        TextPacketView {
            packet_code: self.packet_code,
            length: self.length,
            color_level: self.color_level,
            i_coord: self.i_coord,
            j_coord: self.j_coord,
            text: self.text@,
        }
    }
}

/// The bytes after the length field that come before the text: the color
/// level where the code carries one, then the two coordinates.
pub open spec fn text_fields_len(code: i16) -> nat {
    if code == TEXT_COLORED { 6 } else { 4 }
}

/// Code and length, the fixed fields, then `length` minus the fixed fields'
/// size of UTF-8 text.
pub open spec fn parse_text_packet(s: Seq<u8>) -> Result<(TextPacketView, nat), Error> {
    if s.len() < 4 {
        Err(truncated(4, s))
    } else {
        let code = be_i16(s, 0);
        let length = be_i16(s, 2);
        let fixed = text_fields_len(code);
        let body = s.skip(4);
        if body.len() < fixed {
            Err(truncated(fixed, body))
        } else if length < fixed {
            Err(Error::MalformedText(TextFault::NegativeLength))
        } else {
            let n = (length - fixed) as nat;
            let tail = body.skip(fixed as int);
            if tail.len() < n {
                Err(truncated(n, tail))
            } else if !valid_utf8(tail.take(n as int)) {
                Err(Error::MalformedText(TextFault::InvalidEncoding))
            } else {
                Ok(
                    (
                        TextPacketView {
                            packet_code: PacketCode::spec_from_value(code),
                            length,
                            color_level: if code == TEXT_COLORED {
                                Some(be_i16(s, 4))
                            } else {
                                None
                            },
                            i_coord: be_i16(s, fixed as int),
                            j_coord: be_i16(s, fixed + 2int),
                            text: decode_utf8(tail.take(n as int)),
                        },
                        4 + fixed + n,
                    ),
                )
            }
        }
    }
}

/// Decodes the text packet at the start of `input`.
pub fn text_packet(input: &[u8]) -> (r: Result<(&[u8], TextPacket), Error>)
    ensures
        agrees(r, input@, parse_text_packet(input@)),
{
    if input.len() < 4 {
        return Err(Error::TruncatedInput { needed: 4, had: input.len() });
    }
    let code = read_i16(input, 0);
    let length = read_i16(input, 2);
    let fixed: usize = if code == TEXT_COLORED { 6 } else { 4 };
    if input.len() - 4 < fixed {
        return Err(Error::TruncatedInput { needed: fixed, had: input.len() - 4 });
    }
    if (length as i32) < (fixed as i32) {
        return Err(Error::MalformedText(TextFault::NegativeLength));
    }
    let color_level = if code == TEXT_COLORED { Some(read_i16(input, 4)) } else { None };
    let i_coord = read_i16(input, fixed);
    let j_coord = read_i16(input, fixed + 2);
    let n = (length as i32 - fixed as i32) as usize;
    let start = 4 + fixed;
    if input.len() - start < n {
        return Err(Error::TruncatedInput { needed: n, had: input.len() - start });
    }
    let text = match utf8_text(&input[start..start + n]) {
        Some(t) => t,
        None => {
            proof {
                assert(input@.skip(4).skip(fixed as int).take(n as int) =~= input@.subrange(
                    start as int,
                    start + n,
                ));
            }
            return Err(Error::MalformedText(TextFault::InvalidEncoding));
        },
    };
    let (_, rest) = input.split_at(start + n);
    proof {
        assert(input@.skip(4).skip(fixed as int).take(n as int) =~= input@.subrange(
            start as int,
            start + n,
        ));
    }
    Ok(
        (
            rest,
            TextPacket {
                packet_code: PacketCode::from_i16(code),
                length,
                color_level,
                i_coord,
                j_coord,
                text,
            },
        ),
    )
}

} // verus!
