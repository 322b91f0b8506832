//! The wire format written out: encoders as spec functions, and proofs that
//! each parser reads back exactly what its encoder wrote.
use vstd::prelude::*;

use crate::bytes::{be_i16, be_i32, count_of, i16_bytes, i32_bytes, lemma_i16_round_trip, lemma_i32_round_trip};
use crate::codes::{
    is_text_code, PacketCode, DIGITAL_RADIAL, RUN_LENGTH_RADIAL, TEXT_COLORED, TEXT_PLAIN,
    TEXT_SPECIAL,
};
use crate::text_packet::{parse_text_packet, text_fields_len, TextPacketView};
use vstd::utf8::{encode_utf8, encode_utf8_decode_utf8, encode_utf8_valid_utf8};
use crate::digital_radial::{
    digital_radial_parser, parse_digital_radial, parse_digital_radial_packet,
    DigitalRadialPacketView, DigitalRadialView,
};
use crate::codes::MessageCode;
use crate::error::Error;
use crate::message_header::{epoch_seconds, parse_message_header, MessageHeader};
use crate::product_description::{parse_product_description, ProductDescriptionView};
use crate::radial::{
    parse_radial_header, parse_radial_packet_header, RadialHeader, RadialPacketHeader,
};
use crate::repeat::{parse_many, Parser};
use crate::run_length::{
    parse_rle_packet, parse_rle_radial, rle_pair, rle_pairs, rle_radial_parser, RadialPacketView,
    RadialView, RunLevelEncoding,
};
use crate::symbology::{
    layer_parser, parse_layer, parse_packet, parse_symbology, parse_symbology_header,
    LayerFrame, LayerFraming, SymPacketDataView, SymbologyBlockView, SymbologyHeader,
    SymbologyLayerView, DIVIDER,
};

verus! {

/// An encoder: the bytes that stand for a value.
pub type Encoder<V> = spec_fn(V) -> Seq<u8>;

/// The bytes of `items`, one after the other.
pub open spec fn many_bytes<V>(items: Seq<V>, enc: Encoder<V>) -> Seq<u8>
    decreases items.len(),
{
    if items.len() == 0 {
        Seq::empty()
    } else {
        many_bytes(items.drop_last(), enc) + enc(items.last())
    }
}

/// Where `p` reads back every item of `items` from its encoding, followed by
/// anything, it reads back the whole sequence.
pub proof fn lemma_many_round_trip<V>(p: Parser<V>, enc: Encoder<V>, items: Seq<V>, rest: Seq<u8>)
    requires
        forall|i: int, t: Seq<u8>|
            0 <= i < items.len() ==> #[trigger] p(enc(items[i]) + t) == Ok::<(V, nat), Error>(
                (items[i], enc(items[i]).len()),
            ),
    ensures
        parse_many(p, many_bytes(items, enc) + rest, items.len()) == Ok::<(Seq<V>, nat), Error>(
            (items, many_bytes(items, enc).len()),
        ),
    decreases items.len(),
{
    if items.len() == 0 {
        assert(items =~= Seq::<V>::empty());
    } else {
        let init = items.drop_last();
        let last = items.last();
        let s = many_bytes(items, enc) + rest;
        assert(s =~= many_bytes(init, enc) + (enc(last) + rest));
        assert forall|i: int, t: Seq<u8>| 0 <= i < init.len() implies #[trigger] p(enc(init[i]) + t)
            == Ok::<(V, nat), Error>((init[i], enc(init[i]).len())) by {
            assert(init[i] == items[i]);
        }
        lemma_many_round_trip(p, enc, init, enc(last) + rest);
        assert(s.skip(many_bytes(init, enc).len() as int) =~= enc(last) + rest);
        assert(p(enc(items[items.len() - 1]) + rest) == Ok::<(V, nat), Error>(
            (items[items.len() - 1], enc(items[items.len() - 1]).len()),
        ));
        assert(init.push(last) =~= items);
    }
}

pub open spec fn radial_packet_header_bytes(h: RadialPacketHeader) -> Seq<u8> {
    i16_bytes(h.packet_code) + i16_bytes(h.first_bin) + i16_bytes(h.num_bins) + i16_bytes(
        h.i_sweep_center,
    ) + i16_bytes(h.j_sweep_center) + i16_bytes(h.range_scale) + i16_bytes(h.num_radials)
}

pub open spec fn radial_header_bytes(h: RadialHeader) -> Seq<u8> {
    i16_bytes(h.num_bytes) + i16_bytes(h.angle_start) + i16_bytes(h.angle_delta)
}

pub open spec fn digital_radial_bytes(r: DigitalRadialView) -> Seq<u8> {
    radial_header_bytes(r.header) + r.data
}

pub open spec fn digital_radial_encoder() -> Encoder<DigitalRadialView> {
    |r: DigitalRadialView| digital_radial_bytes(r)
}

pub open spec fn digital_packet_bytes(p: DigitalRadialPacketView) -> Seq<u8> {
    radial_packet_header_bytes(p.header) + many_bytes(p.radials, digital_radial_encoder())
}

/// The byte that holds a run: run in the high nibble, level in the low one.
pub open spec fn rle_byte(e: RunLevelEncoding) -> u8 {
    (e.run * 16 + e.color) as u8
}

pub open spec fn rle_radial_bytes(r: RadialView) -> Seq<u8> {
    radial_header_bytes(r.header) + r.data.map_values(|e: RunLevelEncoding| rle_byte(e))
}

pub open spec fn rle_radial_encoder() -> Encoder<RadialView> {
    |r: RadialView| rle_radial_bytes(r)
}

pub open spec fn rle_packet_bytes(p: RadialPacketView) -> Seq<u8> {
    radial_packet_header_bytes(p.header) + many_bytes(p.radials, rle_radial_encoder())
}

/// A text packet: code, length, the color level where there is one, the
/// coordinates, and the text as UTF-8.
pub open spec fn text_packet_bytes(t: TextPacketView) -> Seq<u8> {
    let color = match t.color_level {
        Some(c) => i16_bytes(c),
        None => Seq::empty(),
    };
    i16_bytes(t.packet_code.spec_value()) + i16_bytes(t.length) + color + i16_bytes(t.i_coord)
        + i16_bytes(t.j_coord) + encode_utf8(t.text)
}

/// The bytes of a packet. A generic data packet is recognised but takes no
/// bytes, so it has no encoding here.
pub open spec fn packet_bytes(p: SymPacketDataView) -> Seq<u8> {
    match p {
        SymPacketDataView::DigitalRadialDataArray(d) => digital_packet_bytes(d),
        SymPacketDataView::RadialDataAF1F(r) => rle_packet_bytes(r),
        SymPacketDataView::TextAndSpecialSymbol1(t) => text_packet_bytes(t),
        SymPacketDataView::TextAndSpecialSymbol2(t) => text_packet_bytes(t),
        SymPacketDataView::TextAndSpecialSymbol8(t) => text_packet_bytes(t),
        SymPacketDataView::GenericData28 => Seq::empty(),
    }
}

pub open spec fn layer_frame_bytes(f: LayerFrame) -> Seq<u8> {
    i16_bytes(f.divider) + i32_bytes(f.length)
}

/// A layer: its frame, where it has one, then its packet.
pub open spec fn layer_bytes(l: SymbologyLayerView) -> Seq<u8> {
    let frame = match l.frame {
        Some(f) => layer_frame_bytes(f),
        None => Seq::empty(),
    };
    frame + packet_bytes(l.packet)
}

pub open spec fn layer_encoder() -> Encoder<SymbologyLayerView> {
    |l: SymbologyLayerView| layer_bytes(l)
}

pub open spec fn symbology_header_bytes(h: SymbologyHeader) -> Seq<u8> {
    i16_bytes(h.divider) + i16_bytes(h.id) + i32_bytes(h.block_length) + i16_bytes(h.layers)
}

pub open spec fn symbology_bytes(b: SymbologyBlockView) -> Seq<u8> {
    symbology_header_bytes(b.header) + many_bytes(b.layers, layer_encoder())
}

/// A digital radial data array that its own header describes.
pub open spec fn digital_packet_wf(p: DigitalRadialPacketView) -> bool {
    &&& p.header.packet_code == DIGITAL_RADIAL
    &&& p.radials.len() == count_of(p.header.num_radials)
    &&& forall|i: int|
        0 <= i < p.radials.len() ==> #[trigger] p.radials[i].data.len() == count_of(
            p.header.num_bins,
        )
}

/// A run-length radial whose runs and levels fit in a nibble and whose header
/// counts its bytes.
pub open spec fn rle_radial_wf(r: RadialView) -> bool {
    &&& r.data.len() == 2 * count_of(r.header.num_bytes)
    &&& forall|i: int| 0 <= i < r.data.len() ==> #[trigger] r.data[i].run < 16 && r.data[i].color < 16
}

pub open spec fn rle_packet_wf(p: RadialPacketView) -> bool {
    &&& p.header.packet_code == RUN_LENGTH_RADIAL
    &&& p.radials.len() == count_of(p.header.num_radials)
    &&& forall|i: int| 0 <= i < p.radials.len() ==> #[trigger] rle_radial_wf(p.radials[i])
}

/// A text packet whose code is one of the two text codes and names its
/// variant, which carries a color level exactly for code 8, and whose length
/// counts the fields after it and the text.
pub open spec fn text_packet_wf(t: TextPacketView) -> bool {
    let code = t.packet_code.spec_value();
    &&& is_text_code(code)
    &&& t.packet_code == PacketCode::spec_from_value(code)
    &&& (t.color_level is Some <==> code == TEXT_COLORED)
    &&& t.length == text_fields_len(code) + encode_utf8(t.text).len()
}

/// A packet that its own header describes, under the variant that its packet
/// code names. A generic data packet takes no bytes, so it is left out.
pub open spec fn packet_wf(p: SymPacketDataView) -> bool {
    match p {
        SymPacketDataView::DigitalRadialDataArray(d) => digital_packet_wf(d),
        SymPacketDataView::RadialDataAF1F(r) => rle_packet_wf(r),
        SymPacketDataView::TextAndSpecialSymbol1(t) => text_packet_wf(t)
            && t.packet_code.spec_value() == TEXT_PLAIN,
        SymPacketDataView::TextAndSpecialSymbol2(t) => text_packet_wf(t)
            && t.packet_code.spec_value() == TEXT_SPECIAL,
        SymPacketDataView::TextAndSpecialSymbol8(t) => text_packet_wf(t)
            && t.packet_code.spec_value() == TEXT_COLORED,
        SymPacketDataView::GenericData28 => false,
    }
}

/// A layer that `framing` reads back: a delimited layer has a frame; a
/// detected one has none, or one whose divider is -1.
pub open spec fn layer_wf(l: SymbologyLayerView, framing: LayerFraming) -> bool {
    &&& packet_wf(l.packet)
    &&& match framing {
        LayerFraming::Delimited => l.frame is Some,
        LayerFraming::Detected => l.frame matches Some(f) ==> f.divider == DIVIDER,
    }
}

/// A symbology block that its own header describes, whose layers `framing`
/// reads back.
pub open spec fn symbology_wf(b: SymbologyBlockView, framing: LayerFraming) -> bool {
    &&& b.header.id == 1
    &&& b.layers.len() == count_of(b.header.layers)
    &&& forall|i: int| 0 <= i < b.layers.len() ==> #[trigger] layer_wf(b.layers[i], framing)
}

pub proof fn lemma_radial_packet_header_round_trip(h: RadialPacketHeader, t: Seq<u8>)
    ensures
        parse_radial_packet_header(radial_packet_header_bytes(h) + t) == Ok::<
            (RadialPacketHeader, nat),
            Error,
        >((h, 14)),
        radial_packet_header_bytes(h).len() == 14,
{
    let s = radial_packet_header_bytes(h) + t;
    assert(s.subrange(0, 2) =~= i16_bytes(h.packet_code));
    assert(s.subrange(2, 4) =~= i16_bytes(h.first_bin));
    assert(s.subrange(4, 6) =~= i16_bytes(h.num_bins));
    assert(s.subrange(6, 8) =~= i16_bytes(h.i_sweep_center));
    assert(s.subrange(8, 10) =~= i16_bytes(h.j_sweep_center));
    assert(s.subrange(10, 12) =~= i16_bytes(h.range_scale));
    assert(s.subrange(12, 14) =~= i16_bytes(h.num_radials));
    lemma_i16_round_trip(h.packet_code, s, 0);
    lemma_i16_round_trip(h.first_bin, s, 2);
    lemma_i16_round_trip(h.num_bins, s, 4);
    lemma_i16_round_trip(h.i_sweep_center, s, 6);
    lemma_i16_round_trip(h.j_sweep_center, s, 8);
    lemma_i16_round_trip(h.range_scale, s, 10);
    lemma_i16_round_trip(h.num_radials, s, 12);
}

pub proof fn lemma_radial_header_round_trip(h: RadialHeader, t: Seq<u8>)
    ensures
        parse_radial_header(radial_header_bytes(h) + t) == Ok::<(RadialHeader, nat), Error>((h, 6)),
        radial_header_bytes(h).len() == 6,
{
    let s = radial_header_bytes(h) + t;
    assert(s.subrange(0, 2) =~= i16_bytes(h.num_bytes));
    assert(s.subrange(2, 4) =~= i16_bytes(h.angle_start));
    assert(s.subrange(4, 6) =~= i16_bytes(h.angle_delta));
    lemma_i16_round_trip(h.num_bytes, s, 0);
    lemma_i16_round_trip(h.angle_start, s, 2);
    lemma_i16_round_trip(h.angle_delta, s, 4);
}

pub proof fn lemma_digital_radial_round_trip(r: DigitalRadialView, num_bins: nat, t: Seq<u8>)
    requires
        r.data.len() == num_bins,
    ensures
        parse_digital_radial(digital_radial_bytes(r) + t, num_bins) == Ok::<
            (DigitalRadialView, nat),
            Error,
        >((r, digital_radial_bytes(r).len())),
{
    let s = digital_radial_bytes(r) + t;
    assert(s =~= radial_header_bytes(r.header) + (r.data + t));
    lemma_radial_header_round_trip(r.header, r.data + t);
    assert(s.skip(6).take(num_bins as int) =~= r.data);
}

pub proof fn lemma_digital_packet_round_trip(p: DigitalRadialPacketView, t: Seq<u8>)
    requires
        digital_packet_wf(p),
    ensures
        parse_digital_radial_packet(digital_packet_bytes(p) + t) == Ok::<
            (DigitalRadialPacketView, nat),
            Error,
        >((p, digital_packet_bytes(p).len())),
{
    let nb = count_of(p.header.num_bins);
    let body = many_bytes(p.radials, digital_radial_encoder());
    let s = digital_packet_bytes(p) + t;
    assert(s =~= radial_packet_header_bytes(p.header) + (body + t));
    lemma_radial_packet_header_round_trip(p.header, body + t);
    assert forall|i: int, u: Seq<u8>| 0 <= i < p.radials.len() implies #[trigger] digital_radial_parser(
        nb,
    )(digital_radial_encoder()(p.radials[i]) + u) == Ok::<(DigitalRadialView, nat), Error>(
        (p.radials[i], digital_radial_encoder()(p.radials[i]).len()),
    ) by {
        lemma_digital_radial_round_trip(p.radials[i], nb, u);
    }
    lemma_many_round_trip(digital_radial_parser(nb), digital_radial_encoder(), p.radials, t);
    assert(s.skip(14) =~= body + t);
}

pub proof fn lemma_rle_radial_round_trip(r: RadialView, t: Seq<u8>)
    requires
        rle_radial_wf(r),
    ensures
        parse_rle_radial(rle_radial_bytes(r) + t) == Ok::<(RadialView, nat), Error>(
            (r, rle_radial_bytes(r).len()),
        ),
{
    let data = r.data.map_values(|e: RunLevelEncoding| rle_byte(e));
    let s = rle_radial_bytes(r) + t;
    assert(s =~= radial_header_bytes(r.header) + (data + t));
    lemma_radial_header_round_trip(r.header, data + t);
    assert(s.skip(6).take(data.len() as int) =~= data);
    assert forall|i: int| 0 <= i < r.data.len() implies #[trigger] rle_pair(data[i]) == r.data[i] by {
        let e = r.data[i];
        assert(e.run < 16 && e.color < 16);
        assert((e.run * 16 + e.color) / 16 == e.run) by (nonlinear_arith)
            requires
                e.color < 16,
        ;
        assert((e.run * 16 + e.color) % 16 == e.color) by (nonlinear_arith)
            requires
                e.color < 16,
        ;
    }
    assert(rle_pairs(data) =~= r.data);
}

pub proof fn lemma_rle_packet_round_trip(p: RadialPacketView, t: Seq<u8>)
    requires
        rle_packet_wf(p),
    ensures
        parse_rle_packet(rle_packet_bytes(p) + t) == Ok::<(RadialPacketView, nat), Error>(
            (p, rle_packet_bytes(p).len()),
        ),
{
    let body = many_bytes(p.radials, rle_radial_encoder());
    let s = rle_packet_bytes(p) + t;
    assert(s =~= radial_packet_header_bytes(p.header) + (body + t));
    lemma_radial_packet_header_round_trip(p.header, body + t);
    assert forall|i: int, u: Seq<u8>| 0 <= i < p.radials.len() implies #[trigger] rle_radial_parser()(
        rle_radial_encoder()(p.radials[i]) + u,
    ) == Ok::<(RadialView, nat), Error>(
        (p.radials[i], rle_radial_encoder()(p.radials[i]).len()),
    ) by {
        lemma_rle_radial_round_trip(p.radials[i], u);
    }
    lemma_many_round_trip(rle_radial_parser(), rle_radial_encoder(), p.radials, t);
    assert(s.skip(14) =~= body + t);
}

pub proof fn lemma_digital_packet_dispatch(d: DigitalRadialPacketView, t: Seq<u8>)
    requires
        digital_packet_wf(d),
    ensures
        parse_packet(digital_packet_bytes(d) + t) == Ok::<(SymPacketDataView, nat), Error>(
            (SymPacketDataView::DigitalRadialDataArray(d), digital_packet_bytes(d).len()),
        ),
        be_i16(digital_packet_bytes(d) + t, 0) == DIGITAL_RADIAL,
{
    let s = digital_packet_bytes(d) + t;
    lemma_digital_packet_round_trip(d, t);
    assert(s.subrange(0, 2) =~= i16_bytes(d.header.packet_code));
    lemma_i16_round_trip(d.header.packet_code, s, 0);
    assert(s.len() >= 2 && be_i16(s, 0) == DIGITAL_RADIAL);
    reveal(parse_packet);
}

pub proof fn lemma_rle_packet_dispatch(r: RadialPacketView, t: Seq<u8>)
    requires
        rle_packet_wf(r),
    ensures
        parse_packet(rle_packet_bytes(r) + t) == Ok::<(SymPacketDataView, nat), Error>(
            (SymPacketDataView::RadialDataAF1F(r), rle_packet_bytes(r).len()),
        ),
        be_i16(rle_packet_bytes(r) + t, 0) == RUN_LENGTH_RADIAL,
{
    let s = rle_packet_bytes(r) + t;
    lemma_rle_packet_round_trip(r, t);
    assert(s.subrange(0, 2) =~= i16_bytes(r.header.packet_code));
    lemma_i16_round_trip(r.header.packet_code, s, 0);
    assert(s.len() >= 2 && be_i16(s, 0) == RUN_LENGTH_RADIAL);
    reveal(parse_packet);
}

pub proof fn lemma_text_packet_round_trip(t: TextPacketView, rest: Seq<u8>)
    requires
        text_packet_wf(t),
    ensures
        parse_text_packet(text_packet_bytes(t) + rest) == Ok::<(TextPacketView, nat), Error>(
            (t, text_packet_bytes(t).len()),
        ),
        be_i16(text_packet_bytes(t) + rest, 0) == t.packet_code.spec_value(),
{
    let code = t.packet_code.spec_value();
    let fixed = text_fields_len(code) as int;
    let text = encode_utf8(t.text);
    let s = text_packet_bytes(t) + rest;
    encode_utf8_valid_utf8(t.text);
    encode_utf8_decode_utf8(t.text);
    assert(s.subrange(0, 2) =~= i16_bytes(code));
    assert(s.subrange(2, 4) =~= i16_bytes(t.length));
    lemma_i16_round_trip(code, s, 0);
    lemma_i16_round_trip(t.length, s, 2);
    if code == TEXT_COLORED {
        let c = t.color_level->Some_0;
        assert(s.subrange(4, 6) =~= i16_bytes(c));
        lemma_i16_round_trip(c, s, 4);
    }
    assert(s.subrange(fixed, fixed + 2) =~= i16_bytes(t.i_coord));
    assert(s.subrange(fixed + 2, fixed + 4) =~= i16_bytes(t.j_coord));
    lemma_i16_round_trip(t.i_coord, s, fixed);
    lemma_i16_round_trip(t.j_coord, s, fixed + 2);
    assert(s.skip(4).skip(fixed) =~= text + rest);
    assert(s.skip(4).skip(fixed).take(text.len() as int) =~= text);
}

pub proof fn lemma_text_packet_dispatch(p: SymPacketDataView, t: TextPacketView, rest: Seq<u8>)
    requires
        packet_wf(p),
        p == SymPacketDataView::TextAndSpecialSymbol1(t) || p
            == SymPacketDataView::TextAndSpecialSymbol2(t) || p
            == SymPacketDataView::TextAndSpecialSymbol8(t),
    ensures
        parse_packet(text_packet_bytes(t) + rest) == Ok::<(SymPacketDataView, nat), Error>(
            (p, text_packet_bytes(t).len()),
        ),
        be_i16(text_packet_bytes(t) + rest, 0) == t.packet_code.spec_value(),
{
    lemma_text_packet_round_trip(t, rest);
    reveal(parse_packet);
}

pub proof fn lemma_packet_round_trip(p: SymPacketDataView, t: Seq<u8>)
    requires
        packet_wf(p),
    ensures
        parse_packet(packet_bytes(p) + t) == Ok::<(SymPacketDataView, nat), Error>(
            (p, packet_bytes(p).len()),
        ),
        be_i16(packet_bytes(p) + t, 0) != DIVIDER,
{
    match p {
        SymPacketDataView::DigitalRadialDataArray(d) => lemma_digital_packet_dispatch(d, t),
        SymPacketDataView::RadialDataAF1F(r) => lemma_rle_packet_dispatch(r, t),
        SymPacketDataView::TextAndSpecialSymbol1(x) => lemma_text_packet_dispatch(p, x, t),
        SymPacketDataView::TextAndSpecialSymbol2(x) => lemma_text_packet_dispatch(p, x, t),
        SymPacketDataView::TextAndSpecialSymbol8(x) => lemma_text_packet_dispatch(p, x, t),
        SymPacketDataView::GenericData28 => {},
    }
}

pub proof fn lemma_layer_round_trip(l: SymbologyLayerView, t: Seq<u8>, framing: LayerFraming)
    requires
        layer_wf(l, framing),
    ensures
        parse_layer(layer_bytes(l) + t, framing) == Ok::<(SymbologyLayerView, nat), Error>(
            (l, layer_bytes(l).len()),
        ),
{
    reveal(parse_layer);
    let s = layer_bytes(l) + t;
    lemma_packet_round_trip(l.packet, t);
    match l.frame {
        Some(f) => {
            assert(s.subrange(0, 2) =~= i16_bytes(f.divider));
            assert(s.subrange(2, 6) =~= i32_bytes(f.length));
            lemma_i16_round_trip(f.divider, s, 0);
            lemma_i32_round_trip(f.length, s, 2);
            assert(s.skip(6) =~= packet_bytes(l.packet) + t);
        },
        None => {
            assert(s =~= packet_bytes(l.packet) + t);
            assert(s.skip(0) =~= s);
        },
    }
}

pub proof fn lemma_symbology_header_round_trip(h: SymbologyHeader, t: Seq<u8>)
    requires
        h.id == 1,
    ensures
        parse_symbology_header(symbology_header_bytes(h) + t) == Ok::<(SymbologyHeader, nat), Error>(
            (h, 10),
        ),
        symbology_header_bytes(h).len() == 10,
{
    let s = symbology_header_bytes(h) + t;
    assert(s.subrange(0, 2) =~= i16_bytes(h.divider));
    assert(s.subrange(2, 4) =~= i16_bytes(h.id));
    assert(s.subrange(4, 8) =~= i32_bytes(h.block_length));
    assert(s.subrange(8, 10) =~= i16_bytes(h.layers));
    lemma_i16_round_trip(h.divider, s, 0);
    lemma_i16_round_trip(h.id, s, 2);
    lemma_i32_round_trip(h.block_length, s, 4);
    lemma_i16_round_trip(h.layers, s, 8);
}

pub proof fn lemma_symbology_round_trip(b: SymbologyBlockView, t: Seq<u8>, framing: LayerFraming)
    requires
        symbology_wf(b, framing),
    ensures
        parse_symbology(symbology_bytes(b) + t, framing) == Ok::<
            (SymbologyBlockView, nat),
            Error,
        >((b, symbology_bytes(b).len())),
{
    let body = many_bytes(b.layers, layer_encoder());
    let s = symbology_bytes(b) + t;
    assert(s =~= symbology_header_bytes(b.header) + (body + t));
    lemma_symbology_header_round_trip(b.header, body + t);
    assert forall|i: int, u: Seq<u8>| 0 <= i < b.layers.len() implies #[trigger] layer_parser(
        framing,
    )(layer_encoder()(b.layers[i]) + u) == Ok::<(SymbologyLayerView, nat), Error>(
        (b.layers[i], layer_encoder()(b.layers[i]).len()),
    ) by {
        lemma_layer_round_trip(b.layers[i], u, framing);
    }
    lemma_many_round_trip(layer_parser(framing), layer_encoder(), b.layers, t);
    assert(s.skip(10) =~= body + t);
}

/// The wire fields of a message header, before the time is combined.
pub struct MessageFields {
    pub code: i16,
    pub days: i16,
    pub seconds: i32,
    pub length: i32,
    pub source: i16,
    pub dest: i16,
    pub nblocks: i16,
}

#[verifier::opaque]
pub open spec fn message_fields_bytes(f: MessageFields) -> Seq<u8> {
    i16_bytes(f.code) + i16_bytes(f.days) + i32_bytes(f.seconds) + i32_bytes(f.length) + i16_bytes(
        f.source,
    ) + i16_bytes(f.dest) + i16_bytes(f.nblocks)
}

/// The message header that the wire fields `f` stand for.
pub open spec fn message_header_of(f: MessageFields) -> MessageHeader {
    MessageHeader {
        code: MessageCode::spec_from_value(f.code),
        datetime: epoch_seconds(f.days, f.seconds),
        length: f.length,
        source: f.source,
        dest: f.dest,
        nblocks: f.nblocks,
    }
}

pub proof fn lemma_message_header_round_trip(f: MessageFields, t: Seq<u8>)
    ensures
        parse_message_header(message_fields_bytes(f) + t) == Ok::<(MessageHeader, nat), Error>(
            (message_header_of(f), 18),
        ),
        message_fields_bytes(f).len() == 18,
{
    reveal(message_fields_bytes);
    let s = message_fields_bytes(f) + t;
    assert(s.subrange(0, 2) =~= i16_bytes(f.code));
    assert(s.subrange(2, 4) =~= i16_bytes(f.days));
    assert(s.subrange(4, 8) =~= i32_bytes(f.seconds));
    assert(s.subrange(8, 12) =~= i32_bytes(f.length));
    assert(s.subrange(12, 14) =~= i16_bytes(f.source));
    assert(s.subrange(14, 16) =~= i16_bytes(f.dest));
    assert(s.subrange(16, 18) =~= i16_bytes(f.nblocks));
    lemma_i16_round_trip(f.code, s, 0);
    lemma_i16_round_trip(f.days, s, 2);
    lemma_i32_round_trip(f.seconds, s, 4);
    lemma_i32_round_trip(f.length, s, 8);
    lemma_i16_round_trip(f.source, s, 12);
    lemma_i16_round_trip(f.dest, s, 14);
    lemma_i16_round_trip(f.nblocks, s, 16);
}

/// A description whose byte ranges have their fixed lengths.
pub open spec fn product_description_wf(d: ProductDescriptionView) -> bool {
    d.halfwords_27_28.len() == 4 && d.halfwords_30.len() == 2 && d.threshold_data.len() == 32 && d.halfwords_47_53.len() == 14
}

/// The first 34 bytes of a description: its fixed-width numeric fields.
#[verifier::opaque]
pub open spec fn description_head_bytes(d: ProductDescriptionView) -> Seq<u8> {
    i16_bytes(d.divider) + i32_bytes(d.latitude) + i32_bytes(d.longitude) + i16_bytes(d.height)
        + i16_bytes(d.product_code) + i16_bytes(d.operational_mode) + i16_bytes(d.vcp)
        + i16_bytes(d.sequence_num) + i16_bytes(d.vol_scan_num) + i16_bytes(d.vol_scan_date)
        + i32_bytes(d.vol_scan_time) + i16_bytes(d.product_date) + i32_bytes(d.product_time)
}

/// The last 68 bytes of a description: the product dependent ranges and the
/// fields around them.
#[verifier::opaque]
pub open spec fn description_tail_bytes(d: ProductDescriptionView) -> Seq<u8> {
    d.halfwords_27_28 + i16_bytes(d.elevation_num) + d.halfwords_30 + d.threshold_data
        + d.halfwords_47_53 + seq![d.version, d.spot_blank] + i32_bytes(d.offset_symbology)
        + i32_bytes(d.offset_graphic) + i32_bytes(d.offset_tabular)
}

pub open spec fn product_description_bytes(d: ProductDescriptionView) -> Seq<u8> {
    description_head_bytes(d) + description_tail_bytes(d)
}

proof fn lemma_description_head(d: ProductDescriptionView, t: Seq<u8>)
    ensures
        description_head_bytes(d).len() == 34,
        ({
            let s = description_head_bytes(d) + t;
            &&& be_i16(s, 0) == d.divider
            &&& be_i32(s, 2) == d.latitude
            &&& be_i32(s, 6) == d.longitude
            &&& be_i16(s, 10) == d.height
            &&& be_i16(s, 12) == d.product_code
            &&& be_i16(s, 14) == d.operational_mode
            &&& be_i16(s, 16) == d.vcp
            &&& be_i16(s, 18) == d.sequence_num
            &&& be_i16(s, 20) == d.vol_scan_num
            &&& be_i16(s, 22) == d.vol_scan_date
            &&& be_i32(s, 24) == d.vol_scan_time
            &&& be_i16(s, 28) == d.product_date
            &&& be_i32(s, 30) == d.product_time
        }),
{
    reveal(description_head_bytes);
    let s = description_head_bytes(d) + t;
    assert(s.subrange(0, 2) =~= i16_bytes(d.divider));
    lemma_i16_round_trip(d.divider, s, 0);
    assert(s.subrange(2, 6) =~= i32_bytes(d.latitude));
    lemma_i32_round_trip(d.latitude, s, 2);
    assert(s.subrange(6, 10) =~= i32_bytes(d.longitude));
    lemma_i32_round_trip(d.longitude, s, 6);
    assert(s.subrange(10, 12) =~= i16_bytes(d.height));
    lemma_i16_round_trip(d.height, s, 10);
    assert(s.subrange(12, 14) =~= i16_bytes(d.product_code));
    lemma_i16_round_trip(d.product_code, s, 12);
    assert(s.subrange(14, 16) =~= i16_bytes(d.operational_mode));
    lemma_i16_round_trip(d.operational_mode, s, 14);
    assert(s.subrange(16, 18) =~= i16_bytes(d.vcp));
    lemma_i16_round_trip(d.vcp, s, 16);
    assert(s.subrange(18, 20) =~= i16_bytes(d.sequence_num));
    lemma_i16_round_trip(d.sequence_num, s, 18);
    assert(s.subrange(20, 22) =~= i16_bytes(d.vol_scan_num));
    lemma_i16_round_trip(d.vol_scan_num, s, 20);
    assert(s.subrange(22, 24) =~= i16_bytes(d.vol_scan_date));
    lemma_i16_round_trip(d.vol_scan_date, s, 22);
    assert(s.subrange(24, 28) =~= i32_bytes(d.vol_scan_time));
    lemma_i32_round_trip(d.vol_scan_time, s, 24);
    assert(s.subrange(28, 30) =~= i16_bytes(d.product_date));
    lemma_i16_round_trip(d.product_date, s, 28);
    assert(s.subrange(30, 34) =~= i32_bytes(d.product_time));
    lemma_i32_round_trip(d.product_time, s, 30);
}

proof fn lemma_description_tail(d: ProductDescriptionView, t: Seq<u8>)
    requires
        product_description_wf(d),
    ensures
        description_tail_bytes(d).len() == 68,
        ({
            let s = description_tail_bytes(d) + t;
            &&& s.subrange(0, 4) == d.halfwords_27_28
            &&& be_i16(s, 4) == d.elevation_num
            &&& s.subrange(6, 8) == d.halfwords_30
            &&& s.subrange(8, 40) == d.threshold_data
            &&& s.subrange(40, 54) == d.halfwords_47_53
            &&& s[54] == d.version
            &&& s[55] == d.spot_blank
            &&& be_i32(s, 56) == d.offset_symbology
            &&& be_i32(s, 60) == d.offset_graphic
            &&& be_i32(s, 64) == d.offset_tabular
        }),
{
    reveal(description_tail_bytes);
    let s = description_tail_bytes(d) + t;
    assert(s.subrange(0, 4) =~= d.halfwords_27_28);
    assert(s.subrange(4, 6) =~= i16_bytes(d.elevation_num));
    lemma_i16_round_trip(d.elevation_num, s, 4);
    assert(s.subrange(6, 8) =~= d.halfwords_30);
    assert(s.subrange(8, 40) =~= d.threshold_data);
    assert(s.subrange(40, 54) =~= d.halfwords_47_53);
    assert(s.subrange(56, 60) =~= i32_bytes(d.offset_symbology));
    lemma_i32_round_trip(d.offset_symbology, s, 56);
    assert(s.subrange(60, 64) =~= i32_bytes(d.offset_graphic));
    lemma_i32_round_trip(d.offset_graphic, s, 60);
    assert(s.subrange(64, 68) =~= i32_bytes(d.offset_tabular));
    lemma_i32_round_trip(d.offset_tabular, s, 64);
}

pub proof fn lemma_product_description_round_trip(d: ProductDescriptionView, t: Seq<u8>)
    requires
        product_description_wf(d),
    ensures
        parse_product_description(product_description_bytes(d) + t) == Ok::<
            (ProductDescriptionView, nat),
            Error,
        >((d, 102)),
        product_description_bytes(d).len() == 102,
{
    let head = description_head_bytes(d);
    let tail = description_tail_bytes(d);
    let s = product_description_bytes(d) + t;
    lemma_description_head(d, tail + t);
    lemma_description_tail(d, t);
    assert(s =~= head + (tail + t));
    let r = s.skip(34);
    assert(r =~= tail + t);
    assert(s.subrange(34, 38) =~= r.subrange(0, 4));
    assert(s.subrange(40, 42) =~= r.subrange(6, 8));
    assert(s.subrange(42, 74) =~= r.subrange(8, 40));
    assert(s.subrange(74, 88) =~= r.subrange(40, 54));
    assert(s[88] == r[54] && s[89] == r[55]);
    assert(be_i16(s, 38) == be_i16(r, 4));
    assert(be_i32(s, 90) == be_i32(r, 56));
    assert(be_i32(s, 94) == be_i32(r, 60));
    assert(be_i32(s, 98) == be_i32(r, 64));
}

} // verus!
