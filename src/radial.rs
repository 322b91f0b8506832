//! The headers shared by the two radial packet types: the 14-byte packet
//! header and the 6-byte header of each radial.
use vstd::prelude::*;

use crate::bytes::{agrees, be_i16, read_i16, truncated};
use crate::error::Error;

verus! {

/// The number of bytes of a radial packet header.
pub const RADIAL_PACKET_HEADER_LEN: usize = 14;

/// The number of bytes of the header of one radial.
pub const RADIAL_HEADER_LEN: usize = 6;

/// The header of a radial packet (digital or run-length encoded).
#[derive(Clone, Copy, Debug, PartialEq, Eq, Structural)]
pub struct RadialPacketHeader {
    /// The packet code.
    pub packet_code: i16,
    /// Location of the first range bin.
    pub first_bin: i16,
    /// Number of range bins; the wire holds it unsigned.
    pub num_bins: i16,
    /// I coordinate of the center of the sweep.
    pub i_sweep_center: i16,
    /// J coordinate of the center of the sweep.
    pub j_sweep_center: i16,
    /// Range scale factor.
    pub range_scale: i16,
    /// Number of radials in the packet; the wire holds it unsigned.
    pub num_radials: i16,
}

/// The header of a digital radial data array: the same layout.
pub type DigitalRadialPacketHeader = RadialPacketHeader;

/// The header of one radial.
#[derive(Clone, Copy, Debug, PartialEq, Eq, Structural)]
pub struct RadialHeader {
    /// The byte count of the radial (in halfwords for run-length radials);
    /// the wire holds it unsigned.
    pub num_bytes: i16,
    /// Start angle, in tenths of a degree.
    pub angle_start: i16,
    /// Angle from the previous radial, in tenths of a degree.
    pub angle_delta: i16,
}

/// The header of one digital radial: the same layout.
pub type DigitalRadialHeader = RadialHeader;

impl View for RadialPacketHeader {
    type V = RadialPacketHeader;

    open spec fn view(&self) -> RadialPacketHeader {
        *self
    }
}

impl View for RadialHeader {
    type V = RadialHeader;

    open spec fn view(&self) -> RadialHeader {
        *self
    }
}

/// The packet header held by the first fourteen bytes of `s`.
pub open spec fn radial_packet_header_of(s: Seq<u8>) -> RadialPacketHeader {
    RadialPacketHeader {
        packet_code: be_i16(s, 0),
        first_bin: be_i16(s, 2),
        num_bins: be_i16(s, 4),
        i_sweep_center: be_i16(s, 6),
        j_sweep_center: be_i16(s, 8),
        range_scale: be_i16(s, 10),
        num_radials: be_i16(s, 12),
    }
}

/// The radial header held by the first six bytes of `s`.
pub open spec fn radial_header_of(s: Seq<u8>) -> RadialHeader {
    RadialHeader { num_bytes: be_i16(s, 0), angle_start: be_i16(s, 2), angle_delta: be_i16(s, 4) }
}

pub open spec fn parse_radial_packet_header(s: Seq<u8>) -> Result<(RadialPacketHeader, nat), Error> {
    if s.len() < RADIAL_PACKET_HEADER_LEN {
        Err(truncated(RADIAL_PACKET_HEADER_LEN as nat, s))
    } else {
        Ok((radial_packet_header_of(s), RADIAL_PACKET_HEADER_LEN as nat))
    }
}

pub open spec fn parse_radial_header(s: Seq<u8>) -> Result<(RadialHeader, nat), Error> {
    if s.len() < RADIAL_HEADER_LEN {
        Err(truncated(RADIAL_HEADER_LEN as nat, s))
    } else {
        Ok((radial_header_of(s), RADIAL_HEADER_LEN as nat))
    }
}

/// Decodes the radial packet header at the start of `input`.
pub fn radial_packet_header(input: &[u8]) -> (r: Result<(&[u8], RadialPacketHeader), Error>)
    ensures
        agrees(r, input@, parse_radial_packet_header(input@)),
{
    if input.len() < RADIAL_PACKET_HEADER_LEN {
        return Err(Error::TruncatedInput { needed: RADIAL_PACKET_HEADER_LEN, had: input.len() });
    }
    let header = RadialPacketHeader {
        packet_code: read_i16(input, 0),
        first_bin: read_i16(input, 2),
        num_bins: read_i16(input, 4),
        i_sweep_center: read_i16(input, 6),
        j_sweep_center: read_i16(input, 8),
        range_scale: read_i16(input, 10),
        num_radials: read_i16(input, 12),
    };
    let (_, rest) = input.split_at(RADIAL_PACKET_HEADER_LEN);
    Ok((rest, header))
}

/// Decodes the radial header at the start of `input`.
pub fn radial_header(input: &[u8]) -> (r: Result<(&[u8], RadialHeader), Error>)
    ensures
        agrees(r, input@, parse_radial_header(input@)),
{
    if input.len() < RADIAL_HEADER_LEN {
        return Err(Error::TruncatedInput { needed: RADIAL_HEADER_LEN, had: input.len() });
    }
    let header = RadialHeader {
        num_bytes: read_i16(input, 0),
        angle_start: read_i16(input, 2),
        angle_delta: read_i16(input, 4),
    };
    let (_, rest) = input.split_at(RADIAL_HEADER_LEN);
    Ok((rest, header))
}

} // verus!
