//! The product symbology block: its header, then a counted sequence of
//! layers, each holding one packet chosen by its packet code.
use vstd::prelude::*;

use crate::bytes::{agrees, be_i16, count_from, count_of, read_i16, truncated};
use crate::codes::{
    is_text_code, PacketCode, DIGITAL_RADIAL, GENERIC_DATA, RUN_LENGTH_RADIAL, TEXT_COLORED,
    TEXT_PLAIN, TEXT_SPECIAL,
};
use crate::digital_radial::{
    digital_radial_packet, parse_digital_radial_packet, DigitalRadialPacket,
    DigitalRadialPacketView,
};
use crate::error::Error;
use crate::repeat::{lemma_many_error_stops, parse_many, Parser};
use crate::run_length::{parse_rle_packet, rle_radial_packet, RadialPacket, RadialPacketView};
use crate::text_packet::{parse_text_packet, text_packet, TextPacket, TextPacketView};

verus! {

/// The number of bytes of the symbology header.
pub const SYMBOLOGY_HEADER_LEN: usize = 10;

/// The number of bytes of a layer divider and layer length.
pub const LAYER_FRAME_LEN: usize = 6;

/// The block divider.
pub const DIVIDER: i16 = -1;

/// The header of the symbology block.
#[derive(Clone, Copy, Debug, PartialEq, Eq, Structural)]
pub struct SymbologyHeader {
    /// Block divider, -1; another value is kept and does not fail the decode.
    pub divider: i16,
    /// Block id, always 1.
    pub id: i16,
    /// Length of the block in bytes.
    pub block_length: i32,
    /// Number of layers; the wire holds it unsigned.
    pub layers: i16,
}

impl View for SymbologyHeader {
    type V = SymbologyHeader;

    open spec fn view(&self) -> SymbologyHeader {
        *self
    }
}

/// How the layers of a symbology block are framed.
#[derive(Clone, Copy, Debug, PartialEq, Eq, Structural)]
pub enum LayerFraming {
    /// Every layer opens with a layer divider and a 32-bit layer length.
    Delimited,
    /// A layer opens with a divider and a layer length only where its first
    /// halfword is -1; otherwise it opens with its packet code.
    Detected,
}

/// The divider and length that open a layer.
#[derive(Clone, Copy, Debug, PartialEq, Eq, Structural)]
pub struct LayerFrame {
    /// Layer divider, -1; another value is kept and does not fail the decode.
    pub divider: i16,
    /// Length of the layer in bytes.
    pub length: i32,
}

/// The packet of one layer.
#[derive(Clone, Debug, PartialEq, Eq)]
pub enum SymPacketData {
    /// A generic data packet: recognised but not decoded.
    GenericData28,
    RadialDataAF1F(RadialPacket),
    DigitalRadialDataArray(DigitalRadialPacket),
    TextAndSpecialSymbol1(TextPacket),
    TextAndSpecialSymbol2(TextPacket),
    TextAndSpecialSymbol8(TextPacket),
}

pub enum SymPacketDataView {
    GenericData28,
    RadialDataAF1F(RadialPacketView),
    DigitalRadialDataArray(DigitalRadialPacketView),
    TextAndSpecialSymbol1(TextPacketView),
    TextAndSpecialSymbol2(TextPacketView),
    TextAndSpecialSymbol8(TextPacketView),
}

impl View for SymPacketData {
    type V = SymPacketDataView;

    open spec fn view(&self) -> SymPacketDataView {
        match self {
            SymPacketData::GenericData28 => SymPacketDataView::GenericData28,
            SymPacketData::RadialDataAF1F(p) => SymPacketDataView::RadialDataAF1F(p@),
            SymPacketData::DigitalRadialDataArray(p) => SymPacketDataView::DigitalRadialDataArray(p@),
            SymPacketData::TextAndSpecialSymbol1(p) => SymPacketDataView::TextAndSpecialSymbol1(p@),
            SymPacketData::TextAndSpecialSymbol2(p) => SymPacketDataView::TextAndSpecialSymbol2(p@),
            SymPacketData::TextAndSpecialSymbol8(p) => SymPacketDataView::TextAndSpecialSymbol8(p@),
        }
    }
}

impl SymPacketData {
    /// The declared number of range bins of a radial packet; 0 for the others.
    pub fn num_bins(&self) -> (r: i16)
        ensures
            r == match self {
                SymPacketData::RadialDataAF1F(p) => p.header.num_bins,
                SymPacketData::DigitalRadialDataArray(p) => p.header.num_bins,
                _ => 0,
            },
    {
        match self {
            SymPacketData::RadialDataAF1F(p) => p.header.num_bins,
            SymPacketData::DigitalRadialDataArray(p) => p.header.num_bins,
            _ => 0,
        }
    }
}

/// One layer: the frame that opened it, if any, and its packet.
#[derive(Clone, Debug, PartialEq, Eq)]
pub struct SymbologyLayer {
    pub frame: Option<LayerFrame>,
    pub packet: SymPacketData,
}

pub struct SymbologyLayerView {
    pub frame: Option<LayerFrame>,
    pub packet: SymPacketDataView,
}

impl View for SymbologyLayer {
    type V = SymbologyLayerView;

    open spec fn view(&self) -> SymbologyLayerView {
        SymbologyLayerView { frame: self.frame, packet: self.packet@ }
    }
}

/// The symbology block: its header and its layers in order.
#[derive(Clone, Debug, PartialEq, Eq)]
pub struct SymbologyBlock {
    pub header: SymbologyHeader,
    pub layers: Vec<SymbologyLayer>,
}

pub struct SymbologyBlockView {
    pub header: SymbologyHeader,
    pub layers: Seq<SymbologyLayerView>,
}

/// The views of a sequence of layers.
pub open spec fn layers_view(layers: Seq<SymbologyLayer>) -> Seq<SymbologyLayerView> {
    layers.map_values(|l: SymbologyLayer| l@)
}

impl View for SymbologyBlock {
    type V = SymbologyBlockView;

    open spec fn view(&self) -> SymbologyBlockView {
        SymbologyBlockView { header: self.header, layers: layers_view(self.layers@) }
    }
}

/// The number of bytes of the divider and block id that open the symbology
/// header.
pub const SYMBOLOGY_ID_END: usize = 4;

/// The symbology header at the start of `s`, read in field order: a block id
/// other than 1 fails as soon as the id is there, before the rest of the
/// header is needed.
pub open spec fn parse_symbology_header(s: Seq<u8>) -> Result<(SymbologyHeader, nat), Error> {
    if s.len() < SYMBOLOGY_ID_END {
        Err(truncated(SYMBOLOGY_ID_END as nat, s))
    } else if be_i16(s, 2) != 1 {
        Err(Error::SymbologyHeaderInvalid(be_i16(s, 2)))
    } else if s.len() < SYMBOLOGY_HEADER_LEN {
        Err(truncated(SYMBOLOGY_HEADER_LEN as nat, s))
    } else {
        Ok(
            (
                SymbologyHeader {
                    divider: be_i16(s, 0),
                    id: be_i16(s, 2),
                    block_length: crate::bytes::be_i32(s, 4),
                    layers: be_i16(s, 8),
                },
                SYMBOLOGY_HEADER_LEN as nat,
            ),
        )
    }
}

pub open spec fn as_digital(r: Result<(DigitalRadialPacketView, nat), Error>) -> Result<
    (SymPacketDataView, nat),
    Error,
> {
    match r {
        Ok((p, n)) => Ok((SymPacketDataView::DigitalRadialDataArray(p), n)),
        Err(e) => Err(e),
    }
}

pub open spec fn as_run_length(r: Result<(RadialPacketView, nat), Error>) -> Result<
    (SymPacketDataView, nat),
    Error,
> {
    match r {
        Ok((p, n)) => Ok((SymPacketDataView::RadialDataAF1F(p), n)),
        Err(e) => Err(e),
    }
}

/// A text packet, as the variant that its packet code names.
pub open spec fn as_text(r: Result<(TextPacketView, nat), Error>, code: i16) -> Result<
    (SymPacketDataView, nat),
    Error,
> {
    match r {
        Ok((p, n)) => if code == TEXT_COLORED {
            Ok((SymPacketDataView::TextAndSpecialSymbol8(p), n))
        } else if code == TEXT_SPECIAL {
            Ok((SymPacketDataView::TextAndSpecialSymbol2(p), n))
        } else {
            Ok((SymPacketDataView::TextAndSpecialSymbol1(p), n))
        },
        Err(e) => Err(e),
    }
}

/// The packet at the start of `s`, chosen by its packet code. A generic data
/// packet is recognised and takes no bytes.
#[verifier::opaque]
pub open spec fn parse_packet(s: Seq<u8>) -> Result<(SymPacketDataView, nat), Error> {
    if s.len() < 2 {
        Err(truncated(2, s))
    } else {
        let code = be_i16(s, 0);
        if code == DIGITAL_RADIAL {
            as_digital(parse_digital_radial_packet(s))
        } else if code == RUN_LENGTH_RADIAL {
            as_run_length(parse_rle_packet(s))
        } else if is_text_code(code) {
            as_text(parse_text_packet(s), code)
        } else if code == GENERIC_DATA {
            Ok((SymPacketDataView::GenericData28, 0))
        } else {
            Err(Error::PacketCodeUnsupported(code))
        }
    }
}

/// The frame held by the first six bytes of `s`.
pub open spec fn layer_frame_of(s: Seq<u8>) -> LayerFrame {
    LayerFrame { divider: be_i16(s, 0), length: crate::bytes::be_i32(s, 2) }
}

/// The frame that opens a layer at the start of `s`, and the bytes it takes.
pub open spec fn parse_layer_frame(s: Seq<u8>, framing: LayerFraming) -> Result<
    (Option<LayerFrame>, nat),
    Error,
> {
    match framing {
        LayerFraming::Delimited => if s.len() < LAYER_FRAME_LEN {
            Err(truncated(LAYER_FRAME_LEN as nat, s))
        } else {
            Ok((Some(layer_frame_of(s)), LAYER_FRAME_LEN as nat))
        },
        LayerFraming::Detected => if s.len() < 2 {
            Err(truncated(2, s))
        } else if be_i16(s, 0) != DIVIDER {
            Ok((None, 0))
        } else if s.len() < LAYER_FRAME_LEN {
            Err(truncated(LAYER_FRAME_LEN as nat, s))
        } else {
            Ok((Some(layer_frame_of(s)), LAYER_FRAME_LEN as nat))
        },
    }
}

/// One layer: its frame, then its packet.
#[verifier::opaque]
pub open spec fn parse_layer(s: Seq<u8>, framing: LayerFraming) -> Result<(SymbologyLayerView, nat), Error> {
    match parse_layer_frame(s, framing) {
        Err(e) => Err(e),
        Ok((frame, k)) => match parse_packet(s.skip(k as int)) {
            Err(e) => Err(e),
            Ok((packet, m)) => Ok((SymbologyLayerView { frame, packet }, k + m)),
        },
    }
}

pub open spec fn layer_parser(framing: LayerFraming) -> Parser<SymbologyLayerView> {
    |s: Seq<u8>| parse_layer(s, framing)
}

/// The symbology block at the start of `s`: its header, then exactly as many
/// layers as the header declares.
pub open spec fn parse_symbology(s: Seq<u8>, framing: LayerFraming) -> Result<(SymbologyBlockView, nat), Error> {
    match parse_symbology_header(s) {
        Err(e) => Err(e),
        Ok((header, k)) => match parse_many(
            layer_parser(framing),
            s.skip(k as int),
            count_of(header.layers),
        ) {
            Err(e) => Err(e),
            Ok((layers, m)) => Ok((SymbologyBlockView { header, layers }, k + m)),
        },
    }
}

/// Decodes the symbology header at the start of `input`.
pub fn symbology_header(input: &[u8]) -> (r: Result<(&[u8], SymbologyHeader), Error>)
    ensures
        agrees(r, input@, parse_symbology_header(input@)),
{
    if input.len() < SYMBOLOGY_ID_END {
        return Err(Error::TruncatedInput { needed: SYMBOLOGY_ID_END, had: input.len() });
    }
    let id = read_i16(input, 2);
    if id != 1 {
        return Err(Error::SymbologyHeaderInvalid(id));
    }
    if input.len() < SYMBOLOGY_HEADER_LEN {
        return Err(Error::TruncatedInput { needed: SYMBOLOGY_HEADER_LEN, had: input.len() });
    }
    let header = SymbologyHeader {
        divider: read_i16(input, 0),
        id,
        block_length: crate::bytes::read_i32(input, 4),
        layers: read_i16(input, 8),
    };
    let (_, rest) = input.split_at(SYMBOLOGY_HEADER_LEN);
    Ok((rest, header))
}

/// Decodes a digital radial data array packet.
pub fn digital_radial_data_array(input: &[u8]) -> (r: Result<(&[u8], SymPacketData), Error>)
    ensures
        agrees(r, input@, as_digital(parse_digital_radial_packet(input@))),
{
    match digital_radial_packet(input) {
        Ok((rest, p)) => Ok((rest, SymPacketData::DigitalRadialDataArray(p))),
        Err(e) => Err(e),
    }
}

/// Decodes a run-length encoded radial packet.
pub fn radial_data_af1f(input: &[u8]) -> (r: Result<(&[u8], SymPacketData), Error>)
    ensures
        agrees(r, input@, as_run_length(parse_rle_packet(input@))),
{
    match rle_radial_packet(input) {
        Ok((rest, p)) => Ok((rest, SymPacketData::RadialDataAF1F(p))),
        Err(e) => Err(e),
    }
}

/// Decodes a text packet, as the variant that its packet code names.
pub fn text_and_symbol(input: &[u8]) -> (r: Result<(&[u8], SymPacketData), Error>)
    ensures
        agrees(r, input@, as_text(parse_text_packet(input@), be_i16(input@, 0))),
{
    match text_packet(input) {
        Ok((rest, p)) => {
            let code = p.packet_code.value();
            if code == TEXT_COLORED {
                Ok((rest, SymPacketData::TextAndSpecialSymbol8(p)))
            } else if code == TEXT_SPECIAL {
                Ok((rest, SymPacketData::TextAndSpecialSymbol2(p)))
            } else {
                Ok((rest, SymPacketData::TextAndSpecialSymbol1(p)))
            }
        },
        Err(e) => Err(e),
    }
}

/// A generic data packet: recognised, not decoded, and no bytes taken.
pub fn generic_data28(input: &[u8]) -> (r: Result<(&[u8], SymPacketData), Error>)
    ensures
        r == Ok::<(&[u8], SymPacketData), Error>((input, SymPacketData::GenericData28)),
{
    Ok((input, SymPacketData::GenericData28))
}

/// Decodes the packet at the start of `input`, chosen by its packet code.
pub fn packet(input: &[u8]) -> (r: Result<(&[u8], SymPacketData), Error>)
    ensures
        agrees(r, input@, parse_packet(input@)),
{
    reveal(parse_packet);
    if input.len() < 2 {
        return Err(Error::TruncatedInput { needed: 2, had: input.len() });
    }
    let code = read_i16(input, 0);
    if !PacketCode::from_i16(code).is_supported_product() {
        return Err(Error::PacketCodeUnsupported(code));
    }
    if code == DIGITAL_RADIAL {
        digital_radial_data_array(input)
    } else if code == RUN_LENGTH_RADIAL {
        radial_data_af1f(input)
    } else if code == TEXT_PLAIN || code == TEXT_SPECIAL || code == TEXT_COLORED {
        text_and_symbol(input)
    } else {
        proof {
            assert(input@ =~= input@.skip(0));
        }
        generic_data28(input)
    }
}

/// Decodes one layer: its frame, then its packet.
pub fn symbology_layer(input: &[u8], framing: LayerFraming) -> (r: Result<(&[u8], SymbologyLayer), Error>)
    ensures
        agrees(r, input@, parse_layer(input@, framing)),
{
    reveal(parse_layer);
    let framed = match framing {
        LayerFraming::Delimited => true,
        LayerFraming::Detected => {
            if input.len() < 2 {
                return Err(Error::TruncatedInput { needed: 2, had: input.len() });
            }
            read_i16(input, 0) == DIVIDER
        },
    };
    let (frame, k): (Option<LayerFrame>, usize) = if framed {
        if input.len() < LAYER_FRAME_LEN {
            return Err(Error::TruncatedInput { needed: LAYER_FRAME_LEN, had: input.len() });
        }
        (
            Some(LayerFrame { divider: read_i16(input, 0), length: crate::bytes::read_i32(input, 2) }),
            LAYER_FRAME_LEN,
        )
    } else {
        (None, 0)
    };
    let (_, body) = input.split_at(k);
    match packet(body) {
        Ok((rest, p)) => {
            proof {
                assert(rest@ =~= input@.skip(input@.len() - rest@.len()));
            }
            Ok((rest, SymbologyLayer { frame, packet: p }))
        },
        Err(e) => Err(e),
    }
}

/// Decodes the symbology block at the start of `input`: its header, then
/// exactly as many layers as the header declares, in order. The first layer
/// that fails fails the whole block.
#[verifier::loop_isolation(false)]
pub fn symbology(input: &[u8], framing: LayerFraming) -> (r: Result<(&[u8], SymbologyBlock), Error>)
    ensures
        agrees(r, input@, parse_symbology(input@, framing)),
{
    let (body, header) = match symbology_header(input) {
        Ok(x) => x,
        Err(e) => return Err(e),
    };
    let count = count_from(header.layers);
    let mut layers: Vec<SymbologyLayer> = Vec::new();
    let mut rest = body;
    let mut i: usize = 0;
    proof {
        assert(layers_view(layers@) =~= Seq::<SymbologyLayerView>::empty());
    }
    while i < count
        invariant
            i <= count,
            rest@.len() <= body@.len(),
            rest@ == body@.skip(body@.len() - rest@.len()),
            parse_many(layer_parser(framing), body@, i as nat) == Ok::<
                (Seq<SymbologyLayerView>, nat),
                Error,
            >((layers_view(layers@), (body@.len() - rest@.len()) as nat)),
        decreases count - i,
    {
        proof {
            assert(layer_parser(framing)(rest@) == parse_layer(rest@, framing));
        }
        match symbology_layer(rest, framing) {
            Ok((next, layer)) => {
                proof {
                    assert(next@ =~= body@.skip(body@.len() - next@.len()));
                    assert(layers_view(layers@.push(layer)) =~= layers_view(layers@).push(
                        layer@,
                    ));
                }
                layers.push(layer);
                rest = next;
            },
            Err(e) => {
                proof {
                    lemma_many_error_stops(
                        layer_parser(framing),
                        body@,
                        (i + 1) as nat,
                        count as nat,
                    );
                }
                return Err(e);
            },
        }
        i += 1;
    }
    proof {
        assert(rest@ =~= input@.skip(input@.len() - rest@.len()));
    }
    Ok((rest, SymbologyBlock { header, layers }))
}

} // verus!
