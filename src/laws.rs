//! Properties of the decoder as a whole, proved over the parsers that the
//! decoders are proved to agree with.
use vstd::prelude::*;

use crate::bytes::{be_i16, count_of, truncated};
use crate::codes::{is_registered, lemma_message_code_keeps_value, max_version_of, MessageCode};
use crate::digital_radial::{digital_radial_parser, parse_digital_radial_packet};
use crate::digital_radial::parse_digital_radial;
use crate::radial::radial_header_of;
use crate::repeat::{
    lemma_many_only_truncates, lemma_many_prefix, only_truncates, parse_many,
    reads_only_what_it_takes,
};
use crate::run_length::rle_radial_parser;
use crate::run_length::{parse_rle_radial, rle_pair};
use crate::encode::{
    lemma_message_header_round_trip, lemma_product_description_round_trip,
    lemma_symbology_round_trip, message_fields_bytes, message_header_of,
    product_description_bytes, product_description_wf, symbology_bytes, symbology_wf,
    MessageFields,
};
use crate::product_description::ProductDescriptionView;
use crate::symbology::SymbologyBlockView;
use crate::error::Error;
use crate::message_header::{parse_message_header, MESSAGE_HEADER_LEN};
use crate::product_description::{parse_product_description, PRODUCT_DESCRIPTION_LEN};
use crate::radar::{parse_radar, RadarView};
use crate::radial::{
    parse_radial_header, parse_radial_packet_header, RADIAL_HEADER_LEN, RADIAL_PACKET_HEADER_LEN,
};
use crate::run_length::parse_rle_packet;
use crate::symbology::{
    parse_layer, parse_packet, parse_symbology, parse_symbology_header, LayerFraming,
    SYMBOLOGY_HEADER_LEN, SYMBOLOGY_ID_END,
};
use crate::text_header::{lemma_envelope_reads_thirty, parse_text_header, TEXT_HEADER_LEN};
use crate::text_packet::parse_text_packet;

verus! {

/// `r` is the failure `e`.
pub open spec fn fails_with<V>(r: Result<(V, nat), Error>, e: Error) -> bool {
    r == Err::<(V, nat), Error>(e)
}

/// A decoded message never has a description version above the maximum that
/// the support matrix registers for its product code.
pub proof fn law_version_within_matrix(header: Seq<u8>, payload: Seq<u8>, framing: LayerFraming)
    ensures
        match parse_radar(header, payload, framing) {
            Ok((v, _)) => match max_version_of(v.message_header.code.spec_value()) {
                Some(max) => v.product_description.version <= max,
                None => true,
            },
            Err(_) => true,
        },
{
}

/// A message whose code is not in the support matrix fails with
/// `ProductTypeUnsupported`, and the bytes after its message header play no
/// part: the header section cut after the message header, with any payload,
/// gives the same result.
pub proof fn law_unsupported_product_reads_only_headers(
    header: Seq<u8>,
    payload: Seq<u8>,
    other: Seq<u8>,
    framing: LayerFraming,
)
    requires
        header.len() >= TEXT_HEADER_LEN + MESSAGE_HEADER_LEN,
        parse_text_header(header) is Ok,
        !is_registered(be_i16(header, TEXT_HEADER_LEN as int)),
    ensures
        parse_radar(header, payload, framing) == Err::<(RadarView, nat), Error>(
            Error::ProductTypeUnsupported(
                MessageCode::spec_from_value(be_i16(header, TEXT_HEADER_LEN as int)),
            ),
        ),
        parse_radar(header.take((TEXT_HEADER_LEN + MESSAGE_HEADER_LEN) as int), other, framing)
            == parse_radar(header, payload, framing),
{
    let cut = header.take((TEXT_HEADER_LEN + MESSAGE_HEADER_LEN) as int);
    let code = be_i16(header, TEXT_HEADER_LEN as int);
    lemma_message_code_keeps_value(code);
    assert(cut.take(TEXT_HEADER_LEN as int) =~= header.take(TEXT_HEADER_LEN as int));
    lemma_envelope_reads_thirty(cut, header);
    assert(be_i16(cut.skip(TEXT_HEADER_LEN as int), 0) == code);
    assert(be_i16(header.skip(TEXT_HEADER_LEN as int), 0) == code);
}

/// Every decoder given fewer bytes than the fixed-size field it reads next
/// fails with `TruncatedInput`, naming the bytes it needed and the bytes it
/// had. Fields are read in order: the text envelope needs its four-byte
/// `SDUS` first, and the symbology header needs its whole ten bytes only once
/// its block id, in the first four, is 1.
pub proof fn law_short_input_is_truncated(s: Seq<u8>, framing: LayerFraming)
    ensures
        s.len() < 4 ==> fails_with(parse_text_header(s), truncated(4, s)),
        s.len() < MESSAGE_HEADER_LEN ==> fails_with(parse_message_header(s), truncated(MESSAGE_HEADER_LEN as nat, s)),
        s.len() < PRODUCT_DESCRIPTION_LEN ==> fails_with(parse_product_description(s), truncated(PRODUCT_DESCRIPTION_LEN as nat, s)),
        s.len() < SYMBOLOGY_ID_END ==> fails_with(parse_symbology_header(s), truncated(SYMBOLOGY_ID_END as nat, s)),
        s.len() < SYMBOLOGY_ID_END ==> fails_with(parse_symbology(s, framing), truncated(SYMBOLOGY_ID_END as nat, s)),
        SYMBOLOGY_ID_END <= s.len() < SYMBOLOGY_HEADER_LEN && be_i16(s, 2) == 1 ==> fails_with(parse_symbology_header(s), truncated(SYMBOLOGY_HEADER_LEN as nat, s)),
        SYMBOLOGY_ID_END <= s.len() < SYMBOLOGY_HEADER_LEN && be_i16(s, 2) == 1 ==> fails_with(parse_symbology(s, framing), truncated(SYMBOLOGY_HEADER_LEN as nat, s)),
        s.len() < RADIAL_PACKET_HEADER_LEN ==> fails_with(parse_radial_packet_header(s), truncated(RADIAL_PACKET_HEADER_LEN as nat, s)),
        s.len() < RADIAL_PACKET_HEADER_LEN ==> fails_with(parse_digital_radial_packet(s), truncated(RADIAL_PACKET_HEADER_LEN as nat, s)),
        s.len() < RADIAL_PACKET_HEADER_LEN ==> fails_with(parse_rle_packet(s), truncated(RADIAL_PACKET_HEADER_LEN as nat, s)),
        s.len() < RADIAL_HEADER_LEN ==> fails_with(parse_radial_header(s), truncated(RADIAL_HEADER_LEN as nat, s)),
        s.len() < 4 ==> fails_with(parse_text_packet(s), truncated(4, s)),
        s.len() < 2 ==> fails_with(parse_packet(s), truncated(2, s)),
        s.len() < 2 ==> parse_layer(s, framing) is Err,
{
    reveal(parse_packet);
    reveal(parse_layer);
}

/// Round trip: a message header, a product description and a symbology block
/// of radial and text layers, written in the wire format after a text
/// envelope, decode to exactly what was written: every field, every layer,
/// and every radial's header and bytes, in their order.
pub proof fn law_round_trip(
    envelope: Seq<u8>,
    f: MessageFields,
    d: ProductDescriptionView,
    b: SymbologyBlockView,
    rest: Seq<u8>,
    framing: LayerFraming,
)
    requires
        envelope.len() == TEXT_HEADER_LEN,
        parse_text_header(envelope) is Ok,
        is_registered(f.code),
        max_version_of(f.code) matches Some(max) ==> d.version <= max,
        product_description_wf(d),
        d.offset_symbology > 0,
        symbology_wf(b, framing),
    ensures
        parse_radar(
            envelope + message_fields_bytes(f) + product_description_bytes(d),
            symbology_bytes(b) + rest,
            framing,
        ) == Ok::<(RadarView, nat), Error>(
            (
                RadarView {
                    text_header: parse_text_header(envelope)->Ok_0.0,
                    message_header: message_header_of(f),
                    product_description: d,
                    symbology: Some(b),
                },
                symbology_bytes(b).len(),
            ),
        ),
{
    let mb = message_fields_bytes(f);
    let db = product_description_bytes(d);
    let h = envelope + mb + db;
    lemma_message_header_round_trip(f, db);
    lemma_product_description_round_trip(d, Seq::empty());
    lemma_symbology_round_trip(b, rest, framing);
    lemma_message_code_keeps_value(f.code);
    assert(h =~= envelope + (mb + db));
    assert(h.take(TEXT_HEADER_LEN as int) =~= envelope.take(TEXT_HEADER_LEN as int));
    lemma_envelope_reads_thirty(h, envelope);
    assert(h.skip(TEXT_HEADER_LEN as int) =~= mb + db);
    assert(h.skip(TEXT_HEADER_LEN as int).skip(MESSAGE_HEADER_LEN as int) =~= db + Seq::empty());
}

/// The radials of a digital array, each of `num_bins` bytes, stand one after
/// the other: radial `j` starts `j * (6 + num_bins)` bytes in.
proof fn lemma_digital_radials_layout(s: Seq<u8>, num_bins: nat, i: nat)
    requires
        parse_many(digital_radial_parser(num_bins), s, i) is Ok,
    ensures
        ({
            let (radials, k) = parse_many(digital_radial_parser(num_bins), s, i)->Ok_0;
            &&& radials.len() == i
            &&& k == i * (6 + num_bins)
            &&& k <= s.len()
            &&& forall|j: int|
                0 <= j < i ==> #[trigger] radials[j].data == s.subrange(
                    j * (6 + num_bins) + 6,
                    j * (6 + num_bins) + 6 + num_bins,
                )
        }),
    decreases i,
{
    if i > 0 {
        let w = 6 + num_bins;
        lemma_digital_radials_layout(s, num_bins, (i - 1) as nat);
        let k0 = parse_many(digital_radial_parser(num_bins), s, (i - 1) as nat)->Ok_0.1;
        assert(i * w == (i - 1) * w + w) by (nonlinear_arith);
        assert(s.skip(k0 as int).skip(6).take(num_bins as int) =~= s.subrange(
            k0 + 6int,
            k0 + 6int + num_bins,
        ));
    }
}

/// A digital radial data array whose header declares `R` radials of `B` bins
/// takes exactly `14 + R * (6 + B)` bytes, and its radial `j` holds the `B`
/// bytes after the `j`-th radial header, in sweep order.
pub proof fn law_digital_array_layout(s: Seq<u8>)
    requires
        parse_digital_radial_packet(s) is Ok,
    ensures
        ({
            let (p, n) = parse_digital_radial_packet(s)->Ok_0;
            let r = count_of(p.header.num_radials);
            let b = count_of(p.header.num_bins);
            &&& n == 14 + r * (6 + b)
            &&& p.radials.len() == r
            &&& forall|j: int|
                0 <= j < r ==> #[trigger] p.radials[j].data == s.subrange(
                    14 + j * (6 + b) + 6,
                    14 + j * (6 + b) + 6 + b,
                )
        }),
{
    let (p, n) = parse_digital_radial_packet(s)->Ok_0;
    let r = count_of(p.header.num_radials);
    let b = count_of(p.header.num_bins);
    let body = s.skip(14);
    lemma_digital_radials_layout(body, b, r);
    assert forall|j: int| 0 <= j < r implies #[trigger] p.radials[j].data == s.subrange(
        14 + j * (6 + b) + 6,
        14 + j * (6 + b) + 6 + b,
    ) by {
        assert(j * (6 + b) + 6 + b <= r * (6 + b)) by (nonlinear_arith)
            requires
                0 <= j < r,
        ;
        assert(body.subrange(j * (6 + b) + 6, j * (6 + b) + 6 + b) =~= s.subrange(
            14 + j * (6 + b) + 6,
            14 + j * (6 + b) + 6 + b,
        ));
    }
}

/// A run-length radial whose header counts `C` halfwords takes exactly
/// `6 + 2 * C` bytes and holds one run per byte after its header: the high
/// nibble is the run, the low one the level.
pub proof fn law_rle_radial_layout(s: Seq<u8>)
    requires
        parse_rle_radial(s) is Ok,
    ensures
        ({
            let (r, n) = parse_rle_radial(s)->Ok_0;
            &&& n == 6 + 2 * count_of(r.header.num_bytes)
            &&& r.data.len() == 2 * count_of(r.header.num_bytes)
            &&& forall|i: int| 0 <= i < r.data.len() ==> #[trigger] r.data[i] == rle_pair(s[6 + i])
            &&& forall|i: int| 0 <= i < r.data.len() ==> r.data[i].run < 16 && r.data[i].color < 16
        }),
{
}

/// A text packet takes exactly the four bytes of its code and length plus
/// the `length` bytes that the length field counts.
pub proof fn law_text_packet_size(s: Seq<u8>)
    requires
        parse_text_packet(s) is Ok,
    ensures
        ({
            let (t, n) = parse_text_packet(s)->Ok_0;
            &&& n == 4 + t.length
            &&& t.length == be_i16(s, 2)
            &&& (t.color_level is Some <==> be_i16(s, 0) == crate::codes::TEXT_COLORED)
        }),
{
}

/// A prefix of `s` that holds its first six bytes holds the same radial
/// header.
proof fn lemma_radial_header_prefix(s: Seq<u8>, m: int)
    requires
        6 <= m <= s.len(),
    ensures
        radial_header_of(s.take(m)) == radial_header_of(s),
{
    let t = s.take(m);
    assert(t[0] == s[0] && t[1] == s[1] && t[2] == s[2] && t[3] == s[3] && t[4] == s[4] && t[5]
        == s[5]);
}

proof fn lemma_rle_radial_prefix(s: Seq<u8>, m: int)
    requires
        parse_rle_radial(s) is Ok,
        0 <= m <= s.len(),
    ensures
        ({
            let n = parse_rle_radial(s)->Ok_0.1;
            &&& n <= s.len()
            &&& m >= n ==> parse_rle_radial(s.take(m)) == parse_rle_radial(s)
            &&& m < n ==> parse_rle_radial(s.take(m)) is Err
        }),
{
    if m >= 6 {
        let t = s.take(m);
        lemma_radial_header_prefix(s, m);
        let c = 2 * count_of(radial_header_of(s).num_bytes);
        assert(t.skip(6) =~= s.skip(6).take(m - 6));
        if m - 6 >= c {
            assert(t.skip(6).take(c as int) =~= s.skip(6).take(c as int));
        }
    }
}

proof fn lemma_digital_radial_prefix(s: Seq<u8>, num_bins: nat, m: int)
    requires
        parse_digital_radial(s, num_bins) is Ok,
        0 <= m <= s.len(),
    ensures
        ({
            let n = parse_digital_radial(s, num_bins)->Ok_0.1;
            &&& n <= s.len()
            &&& m >= n ==> parse_digital_radial(s.take(m), num_bins) == parse_digital_radial(s, num_bins)
            &&& m < n ==> parse_digital_radial(s.take(m), num_bins) is Err
        }),
{
    if m >= 6 {
        let t = s.take(m);
        lemma_radial_header_prefix(s, m);
        assert(t.skip(6) =~= s.skip(6).take(m - 6));
        if m - 6 >= num_bins {
            assert(t.skip(6).take(num_bins as int) =~= s.skip(6).take(num_bins as int));
        }
    }
}

proof fn lemma_radial_parsers_truncate(num_bins: nat)
    ensures
        only_truncates(rle_radial_parser()),
        reads_only_what_it_takes(rle_radial_parser()),
        only_truncates(digital_radial_parser(num_bins)),
        reads_only_what_it_takes(digital_radial_parser(num_bins)),
{
    assert forall|s: Seq<u8>, m: int|
        #![trigger rle_radial_parser()(s), rle_radial_parser()(s.take(m))]
        rle_radial_parser()(s) is Ok && 0 <= m <= s.len() implies {
        let n = rle_radial_parser()(s)->Ok_0.1;
        &&& n <= s.len()
        &&& m >= n ==> rle_radial_parser()(s.take(m)) == rle_radial_parser()(s)
        &&& m < n ==> rle_radial_parser()(s.take(m)) is Err
    } by {
        lemma_rle_radial_prefix(s, m);
    }
    assert forall|s: Seq<u8>, m: int|
        #![trigger digital_radial_parser(num_bins)(s), digital_radial_parser(num_bins)(s.take(m))]
        digital_radial_parser(num_bins)(s) is Ok && 0 <= m <= s.len() implies {
        let n = digital_radial_parser(num_bins)(s)->Ok_0.1;
        &&& n <= s.len()
        &&& m >= n ==> digital_radial_parser(num_bins)(s.take(m)) == digital_radial_parser(num_bins)(s)
        &&& m < n ==> digital_radial_parser(num_bins)(s.take(m)) is Err
    } by {
        lemma_digital_radial_prefix(s, num_bins, m);
    }
}

/// The radial array decoders fail only by running out of bytes, and read
/// nothing past the array: an array that decodes from `s` takes `n` bytes
/// (its header and every radial, `14 + sum of (6 + radial bytes)`); any
/// prefix of `s` shorter than `n` fails with `TruncatedInput`, and any prefix
/// at least `n` long decodes the same.
pub proof fn law_radial_arrays_truncate(s: Seq<u8>, m: int)
    requires
        0 <= m <= s.len(),
    ensures
        parse_rle_packet(s) is Err ==> parse_rle_packet(s)->Err_0 is TruncatedInput,
        parse_digital_radial_packet(s) is Err ==> parse_digital_radial_packet(s)->Err_0 is TruncatedInput,
        parse_rle_packet(s) is Ok ==> {
            let n = parse_rle_packet(s)->Ok_0.1;
            &&& m >= n ==> parse_rle_packet(s.take(m)) == parse_rle_packet(s)
            &&& m < n ==> parse_rle_packet(s.take(m)) is Err && parse_rle_packet(
                s.take(m),
            )->Err_0 is TruncatedInput
        },
        parse_digital_radial_packet(s) is Ok ==> {
            let n = parse_digital_radial_packet(s)->Ok_0.1;
            &&& m >= n ==> parse_digital_radial_packet(s.take(m)) == parse_digital_radial_packet(s)
            &&& m < n ==> parse_digital_radial_packet(s.take(m)) is Err
                && parse_digital_radial_packet(s.take(m))->Err_0 is TruncatedInput
        },
{
    let t = s.take(m);
    if s.len() >= 14 {
        let nb = count_of(be_i16(s, 4));
        let nr = count_of(be_i16(s, 12));
        lemma_radial_parsers_truncate(nb);
        lemma_many_only_truncates(rle_radial_parser(), s.skip(14), nr);
        lemma_many_only_truncates(digital_radial_parser(nb), s.skip(14), nr);
        if m >= 14 {
            assert(t[4] == s[4] && t[5] == s[5] && t[12] == s[12] && t[13] == s[13]);
            assert(t.take(14) =~= s.take(14));
            assert(forall|i: int| 0 <= i < 14 ==> t[i] == s[i]);
            assert(t.skip(14) =~= s.skip(14).take(m - 14));
            lemma_many_only_truncates(rle_radial_parser(), t.skip(14), nr);
            lemma_many_only_truncates(digital_radial_parser(nb), t.skip(14), nr);
            if parse_many(rle_radial_parser(), s.skip(14), nr) is Ok {
                lemma_many_prefix(rle_radial_parser(), s.skip(14), nr, m - 14);
            }
            if parse_many(digital_radial_parser(nb), s.skip(14), nr) is Ok {
                lemma_many_prefix(digital_radial_parser(nb), s.skip(14), nr, m - 14);
            }
        }
    }
}

} // verus!
