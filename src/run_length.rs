//! Run-length encoded radial packets (packet code 0xAF1F): each byte of a
//! radial packs a run length in its high nibble and a level in its low one.
use vstd::prelude::*;

use crate::bytes::{agrees, count_from, count_of, truncated};
use crate::error::Error;
use crate::radial::{
    parse_radial_header, parse_radial_packet_header, radial_header, radial_packet_header,
    RadialHeader, RadialPacketHeader,
};
use crate::repeat::{lemma_many_error_stops, parse_many, Parser};

verus! {

/// One run: `run` consecutive bins at level `color` (0 to 15).
#[derive(Clone, Copy, Debug, PartialEq, Eq, Structural)]
pub struct RunLevelEncoding {
    pub run: u8,
    pub color: u8,
}

/// One run-length encoded radial: its runs in order, not expanded.
#[derive(Clone, Debug, PartialEq, Eq)]
pub struct Radial {
    pub header: RadialHeader,
    pub data: Vec<RunLevelEncoding>,
}

/// A run-length encoded radial packet: its header and its radials in sweep
/// order.
#[derive(Clone, Debug, PartialEq, Eq)]
pub struct RadialPacket {
    pub header: RadialPacketHeader,
    pub radials: Vec<Radial>,
}

pub struct RadialView {
    pub header: RadialHeader,
    pub data: Seq<RunLevelEncoding>,
}

pub struct RadialPacketView {
    pub header: RadialPacketHeader,
    pub radials: Seq<RadialView>,
}

impl View for RunLevelEncoding {
    type V = RunLevelEncoding;

    open spec fn view(&self) -> RunLevelEncoding {
        *self
    }
}

impl View for Radial {
    type V = RadialView;

    open spec fn view(&self) -> RadialView {
        RadialView { header: self.header, data: self.data@ }
    }
}

/// The views of a sequence of radials.
pub open spec fn radials_view(radials: Seq<Radial>) -> Seq<RadialView> {
    radials.map_values(|r: Radial| r@)
}

impl View for RadialPacket {
    type V = RadialPacketView;

    open spec fn view(&self) -> RadialPacketView {
        RadialPacketView { header: self.header, radials: radials_view(self.radials@) }
    }
}

/// The run held by byte `b`: the high nibble is the run, the low one the level.
pub open spec fn rle_pair(b: u8) -> RunLevelEncoding {
    RunLevelEncoding { run: b / 16, color: b % 16 }
}

/// The runs held by `bytes`, one per byte, in order.
pub open spec fn rle_pairs(bytes: Seq<u8>) -> Seq<RunLevelEncoding> {
    bytes.map_values(|b: u8| rle_pair(b))
}

/// A radial header followed by twice its declared count of run bytes. The
/// packet header's bin count plays no part, and the runs are not checked
/// against it.
pub open spec fn parse_rle_radial(s: Seq<u8>) -> Result<(RadialView, nat), Error> {
    match parse_radial_header(s) {
        Err(e) => Err(e),
        Ok((header, k)) => {
            let body = s.skip(k as int);
            let n = 2 * count_of(header.num_bytes);
            if body.len() < n {
                Err(truncated(n, body))
            } else {
                Ok((RadialView { header, data: rle_pairs(body.take(n as int)) }, k + n))
            }
        },
    }
}

pub open spec fn rle_radial_parser() -> Parser<RadialView> {
    |s: Seq<u8>| parse_rle_radial(s)
}

/// A packet header followed by as many run-length radials as it declares.
pub open spec fn parse_rle_packet(s: Seq<u8>) -> Result<(RadialPacketView, nat), Error> {
    match parse_radial_packet_header(s) {
        Err(e) => Err(e),
        Ok((header, k)) => match parse_many(
            rle_radial_parser(),
            s.skip(k as int),
            count_of(header.num_radials),
        ) {
            Err(e) => Err(e),
            Ok((radials, m)) => Ok((RadialPacketView { header, radials }, k + m)),
        },
    }
}

/// Splits byte `b` into its run and its level.
pub fn run_level(b: u8) -> (r: RunLevelEncoding)
    ensures
        r == rle_pair(b),
{
    RunLevelEncoding { run: b / 16, color: b % 16 }
}

/// Decodes one run-length encoded radial: its header, then twice its
/// halfword count of bytes, each split into a run and a level.
#[verifier::loop_isolation(false)]
pub fn data_block(input: &[u8]) -> (r: Result<(&[u8], Radial), Error>)
    ensures
        agrees(r, input@, parse_rle_radial(input@)),
{
    let (body, header) = match radial_header(input) {
        Ok(x) => x,
        Err(e) => return Err(e),
    };
    let n = count_from(header.num_bytes) * 2;
    if body.len() < n {
        return Err(Error::TruncatedInput { needed: n, had: body.len() });
    }
    let mut data: Vec<RunLevelEncoding> = Vec::new();
    let mut j: usize = 0;
    while j < n
        invariant
            j <= n,
            data@ == rle_pairs(body@.take(j as int)),
        decreases n - j,
    {
        data.push(run_level(body[j]));
        proof {
            assert(rle_pairs(body@.take(j + 1)) =~= rle_pairs(body@.take(j as int)).push(
                rle_pair(body@[j as int]),
            ));
        }
        j += 1;
    }
    let (_, rest) = body.split_at(n);
    proof {
        assert(rest@ =~= input@.skip(input@.len() - rest@.len()));
    }
    Ok((rest, Radial { header, data }))
}

/// Decodes a run-length encoded radial packet: the radials are kept in the
/// order in which they stand.
#[verifier::loop_isolation(false)]
pub fn rle_radial_packet(input: &[u8]) -> (r: Result<(&[u8], RadialPacket), Error>)
    ensures
        agrees(r, input@, parse_rle_packet(input@)),
{
    let (body, header) = match radial_packet_header(input) {
        Ok(x) => x,
        Err(e) => return Err(e),
    };
    let num_radials = count_from(header.num_radials);
    let mut radials: Vec<Radial> = Vec::new();
    let mut rest = body;
    let mut i: usize = 0;
    proof {
        assert(radials_view(radials@) =~= Seq::<RadialView>::empty());
    }
    while i < num_radials
        invariant
            i <= num_radials,
            rest@.len() <= body@.len(),
            rest@ == body@.skip(body@.len() - rest@.len()),
            parse_many(rle_radial_parser(), body@, i as nat) == Ok::<(Seq<RadialView>, nat), Error>(
                (radials_view(radials@), (body@.len() - rest@.len()) as nat),
            ),
        decreases num_radials - i,
    {
        proof {
            assert(rle_radial_parser()(rest@) == parse_rle_radial(rest@));
        }
        match data_block(rest) {
            Ok((next, radial)) => {
                proof {
                    assert(next@ =~= body@.skip(body@.len() - next@.len()));
                    assert(radials_view(radials@.push(radial)) =~= radials_view(radials@).push(
                        radial@,
                    ));
                }
                radials.push(radial);
                rest = next;
            },
            Err(e) => {
                proof {
                    lemma_many_error_stops(
                        rle_radial_parser(),
                        body@,
                        (i + 1) as nat,
                        num_radials as nat,
                    );
                }
                return Err(e);
            },
        }
        i += 1;
    }
    proof {
        assert(rest@ =~= input@.skip(input@.len() - rest@.len()));
    }
    Ok((rest, RadialPacket { header, radials }))
}

} // verus!
