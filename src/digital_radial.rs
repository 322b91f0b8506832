//! Digital radial data array packets (packet code 16): each radial holds one
//! byte per range bin.
use vstd::prelude::*;
use vstd::slice::slice_to_vec;

use crate::bytes::{agrees, count_from, count_of, truncated};
use crate::error::Error;
use crate::radial::{
    parse_radial_header, parse_radial_packet_header, radial_header, radial_packet_header,
    DigitalRadialHeader, DigitalRadialPacketHeader,
};
use crate::repeat::{lemma_many_error_stops, parse_many, Parser};

verus! {

/// One radial of a digital radial data array.
#[derive(Clone, Debug, PartialEq, Eq)]
pub struct DigitalRadial {
    pub header: DigitalRadialHeader,
    /// One level code per range bin, as it stands on the wire.
    pub data: Vec<u8>,
}

/// A digital radial data array: its header and its radials in sweep order.
#[derive(Clone, Debug, PartialEq, Eq)]
pub struct DigitalRadialPacket {
    pub header: DigitalRadialPacketHeader,
    pub radials: Vec<DigitalRadial>,
}

pub struct DigitalRadialView {
    pub header: DigitalRadialHeader,
    pub data: Seq<u8>,
}

pub struct DigitalRadialPacketView {
    pub header: DigitalRadialPacketHeader,
    pub radials: Seq<DigitalRadialView>,
}

impl View for DigitalRadial {
    type V = DigitalRadialView;

    open spec fn view(&self) -> DigitalRadialView {
        DigitalRadialView { header: self.header, data: self.data@ }
    }
}

/// The views of a sequence of digital radials.
pub open spec fn digital_radials_view(radials: Seq<DigitalRadial>) -> Seq<DigitalRadialView> {
    radials.map_values(|r: DigitalRadial| r@)
}

impl View for DigitalRadialPacket {
    type V = DigitalRadialPacketView;

    open spec fn view(&self) -> DigitalRadialPacketView {
        DigitalRadialPacketView { header: self.header, radials: digital_radials_view(self.radials@) }
    }
}

/// A radial header followed by `num_bins` data bytes.
pub open spec fn parse_digital_radial(s: Seq<u8>, num_bins: nat) -> Result<(DigitalRadialView, nat), Error> {
    match parse_radial_header(s) {
        Err(e) => Err(e),
        Ok((header, k)) => {
            let body = s.skip(k as int);
            if body.len() < num_bins {
                Err(truncated(num_bins, body))
            } else {
                Ok((DigitalRadialView { header, data: body.take(num_bins as int) }, k + num_bins))
            }
        },
    }
}

pub open spec fn digital_radial_parser(num_bins: nat) -> Parser<DigitalRadialView> {
    |s: Seq<u8>| parse_digital_radial(s, num_bins)
}

/// A packet header followed by `num_radials` radials of `num_bins` bytes each,
/// both counts taken from the header.
pub open spec fn parse_digital_radial_packet(s: Seq<u8>) -> Result<(DigitalRadialPacketView, nat), Error> {
    match parse_radial_packet_header(s) {
        Err(e) => Err(e),
        Ok((header, k)) => match parse_many(
            digital_radial_parser(count_of(header.num_bins)),
            s.skip(k as int),
            count_of(header.num_radials),
        ) {
            Err(e) => Err(e),
            Ok((radials, m)) => Ok((DigitalRadialPacketView { header, radials }, k + m)),
        },
    }
}

/// Decodes one radial of `num_bins` bins: its header, then exactly
/// `num_bins` level bytes.
pub fn data_block(input: &[u8], num_bins: usize) -> (r: Result<(&[u8], DigitalRadial), Error>)
    ensures
        agrees(r, input@, parse_digital_radial(input@, num_bins as nat)),
{
    let (body, header) = match radial_header(input) {
        Ok(x) => x,
        Err(e) => return Err(e),
    };
    if body.len() < num_bins {
        return Err(Error::TruncatedInput { needed: num_bins, had: body.len() });
    }
    let (data, rest) = body.split_at(num_bins);
    proof {
        assert(rest@ =~= input@.skip(input@.len() - rest@.len()));
    }
    Ok((rest, DigitalRadial { header, data: slice_to_vec(data) }))
}

/// Decodes a digital radial data array: the radials are kept in the order in
/// which they stand.
#[verifier::loop_isolation(false)]
pub fn digital_radial_packet(input: &[u8]) -> (r: Result<(&[u8], DigitalRadialPacket), Error>)
    ensures
        agrees(r, input@, parse_digital_radial_packet(input@)),
{
    let (body, header) = match radial_packet_header(input) {
        Ok(x) => x,
        Err(e) => return Err(e),
    };
    let num_bins = count_from(header.num_bins);
    let num_radials = count_from(header.num_radials);
    let mut radials: Vec<DigitalRadial> = Vec::new();
    let mut rest = body;
    let mut i: usize = 0;
    proof {
        assert(digital_radials_view(radials@) =~= Seq::<DigitalRadialView>::empty());
    }
    while i < num_radials
        invariant
            i <= num_radials,
            rest@.len() <= body@.len(),
            rest@ == body@.skip(body@.len() - rest@.len()),
            parse_many(digital_radial_parser(num_bins as nat), body@, i as nat) == Ok::<(Seq<DigitalRadialView>, nat), Error>(
                (digital_radials_view(radials@), (body@.len() - rest@.len()) as nat),
            ),
        decreases num_radials - i,
    {
        proof {
            assert(digital_radial_parser(num_bins as nat)(rest@) == parse_digital_radial(
                rest@,
                num_bins as nat,
            ));
        }
        match data_block(rest, num_bins) {
            Ok((next, radial)) => {
                proof {
                    assert(next@ =~= body@.skip(body@.len() - next@.len()));
                    assert(digital_radials_view(radials@.push(radial)) =~= digital_radials_view(
                        radials@,
                    ).push(radial@));
                }
                radials.push(radial);
                rest = next;
            },
            Err(e) => {
                proof {
                    lemma_many_error_stops(digital_radial_parser(num_bins as nat), body@, (i + 1) as nat, num_radials as nat);
                }
                return Err(e);
            },
        }
        i += 1;
    }
    proof {
        assert(rest@ =~= input@.skip(input@.len() - rest@.len()));
    }
    Ok((rest, DigitalRadialPacket { header, radials }))
}

} // verus!
