use radar::{
    digital_radial_data_array, generic_data28, radial_data_af1f, symbology, symbology_header,
    symbology_layer, text_and_symbol, Error, LayerFrame, LayerFraming, PacketCode, RunLevelEncoding,
    SymPacketData, TextFault,
};

fn be16(v: i16) -> Vec<u8> {
    v.to_be_bytes().to_vec()
}

fn be32(v: i32) -> Vec<u8> {
    v.to_be_bytes().to_vec()
}

fn packet_header(code: i16, num_bins: i16, num_radials: i16) -> Vec<u8> {
    let mut b = Vec::new();
    for v in [code, 0, num_bins, 256, 257, 999, num_radials] {
        b.extend(be16(v));
    }
    b
}

fn radial_header(count: i16, start: i16, delta: i16) -> Vec<u8> {
    let mut b = be16(count);
    b.extend(be16(start));
    b.extend(be16(delta));
    b
}

fn digital_packet() -> Vec<u8> {
    let mut b = packet_header(16, 4, 2);
    b.extend(radial_header(4, 0, 10));
    b.extend([1, 2, 3, 4]);
    b.extend(radial_header(4, 10, 10));
    b.extend([5, 6, 7, 8]);
    b
}

fn rle_packet() -> Vec<u8> {
    let mut b = packet_header(-20705, 230, 1);
    b.extend(radial_header(2, 3599, 9));
    b.extend([0x31, 0x42, 0x05, 0xF0]);
    b
}

fn text_colored() -> Vec<u8> {
    let mut b = be16(8);
    b.extend(be16(10));
    b.extend(be16(3));
    b.extend(be16(-20));
    b.extend(be16(40));
    b.extend(b"KLOT");
    b
}

fn symbology_bytes(layers: &[Vec<u8>]) -> Vec<u8> {
    let mut b = be16(-1);
    b.extend(be16(1));
    b.extend(be32(1234));
    b.extend(be16(layers.len() as i16));
    for layer in layers {
        b.extend(be16(-1));
        b.extend(be32(layer.len() as i32));
        b.extend(layer);
    }
    b
}

#[test]
fn digital_radial_two_radials() {
    let mut input = digital_packet();
    assert_eq!(input.len(), 14 + 2 * (6 + 4));
    input.extend([0xEE]);
    let (rest, p) = digital_radial_data_array(&input).unwrap();
    assert_eq!(rest, &[0xEE]);
    match p {
        SymPacketData::DigitalRadialDataArray(p) => {
            assert_eq!(p.header.packet_code, 16);
            assert_eq!(p.header.num_bins, 4);
            assert_eq!(p.header.i_sweep_center, 256);
            assert_eq!(p.header.j_sweep_center, 257);
            assert_eq!(p.header.range_scale, 999);
            assert_eq!(p.radials.len(), 2);
            assert_eq!(p.radials[0].header.angle_start, 0);
            assert_eq!(p.radials[0].data, vec![1, 2, 3, 4]);
            assert_eq!(p.radials[1].header.angle_start, 10);
            assert_eq!(p.radials[1].header.angle_delta, 10);
            assert_eq!(p.radials[1].data, vec![5, 6, 7, 8]);
        }
        other => panic!("unexpected packet {:?}", other),
    }
}

#[test]
fn digital_radial_missing_bins_is_truncated() {
    let input = digital_packet();
    assert_eq!(
        digital_radial_data_array(&input[..input.len() - 1]),
        Err(Error::TruncatedInput { needed: 4, had: 3 })
    );
}

#[test]
fn run_length_radial_pairs() {
    let input = rle_packet();
    let (rest, p) = radial_data_af1f(&input).unwrap();
    assert!(rest.is_empty());
    match p {
        SymPacketData::RadialDataAF1F(p) => {
            assert_eq!(p.radials.len(), 1);
            let r = &p.radials[0];
            assert_eq!(r.header.num_bytes, 2);
            assert_eq!(r.header.angle_start, 3599);
            assert_eq!(r.data.len(), 4);
            assert_eq!(r.data[0], RunLevelEncoding { run: 3, color: 1 });
            assert_eq!(r.data[1], RunLevelEncoding { run: 4, color: 2 });
            assert_eq!(r.data[2], RunLevelEncoding { run: 0, color: 5 });
            assert_eq!(r.data[3], RunLevelEncoding { run: 15, color: 0 });
        }
        other => panic!("unexpected packet {:?}", other),
    }
}

#[test]
fn run_length_two_bytes_per_halfword() {
    let mut input = packet_header(-20705, 2, 1);
    input.extend(radial_header(1, 0, 10));
    input.extend([0x31, 0x42, 0x77]);
    let (rest, p) = radial_data_af1f(&input).unwrap();
    assert_eq!(rest, &[0x77]);
    match p {
        SymPacketData::RadialDataAF1F(p) => {
            assert_eq!(
                p.radials[0].data,
                vec![RunLevelEncoding { run: 3, color: 1 }, RunLevelEncoding { run: 4, color: 2 }]
            );
        }
        other => panic!("unexpected packet {:?}", other),
    }
}

#[test]
fn run_length_ignores_declared_bin_count() {
    let mut input = packet_header(-20705, 1000, 1);
    input.extend(radial_header(1, 0, 10));
    input.extend([0x11, 0x22]);
    let (rest, p) = radial_data_af1f(&input).unwrap();
    assert!(rest.is_empty());
    assert_eq!(p.num_bins(), 1000);
}

#[test]
fn text_symbol_with_color_level() {
    let mut input = text_colored();
    input.push(0x99);
    let (rest, p) = text_and_symbol(&input).unwrap();
    assert_eq!(input.len() - rest.len(), 4 + 10);
    assert_eq!(rest, &[0x99]);
    match p {
        SymPacketData::TextAndSpecialSymbol8(t) => {
            assert_eq!(t.packet_code, PacketCode::TextAndSpecialSymbol8);
            assert_eq!(t.length, 10);
            assert_eq!(t.color_level, Some(3));
            assert_eq!(t.i_coord, -20);
            assert_eq!(t.j_coord, 40);
            assert_eq!(t.text, "KLOT");
        }
        other => panic!("unexpected packet {:?}", other),
    }
}

#[test]
fn text_symbol_without_color_level() {
    let mut input = be16(1);
    input.extend(be16(7));
    input.extend(be16(5));
    input.extend(be16(6));
    input.extend(b"abc");
    let (rest, p) = text_and_symbol(&input).unwrap();
    assert!(rest.is_empty());
    match p {
        SymPacketData::TextAndSpecialSymbol1(t) => {
            assert_eq!(t.color_level, None);
            assert_eq!(t.i_coord, 5);
            assert_eq!(t.j_coord, 6);
            assert_eq!(t.text, "abc");
        }
        other => panic!("unexpected packet {:?}", other),
    }
}

#[test]
fn text_symbol_negative_remainder() {
    let mut input = be16(8);
    input.extend(be16(5));
    input.extend(be16(3));
    input.extend(be16(4));
    input.extend(be16(5));
    assert_eq!(
        text_and_symbol(&input),
        Err(Error::MalformedText(TextFault::NegativeLength))
    );
}

#[test]
fn text_symbol_invalid_encoding() {
    let mut input = be16(1);
    input.extend(be16(6));
    input.extend(be16(5));
    input.extend(be16(6));
    input.extend([0xC3, 0x28]);
    assert_eq!(
        text_and_symbol(&input),
        Err(Error::MalformedText(TextFault::InvalidEncoding))
    );
}

#[test]
fn text_symbol_missing_text_is_truncated() {
    let input = text_colored();
    assert_eq!(
        text_and_symbol(&input[..12]),
        Err(Error::TruncatedInput { needed: 4, had: 2 })
    );
}

#[test]
fn generic_data_is_recognised_and_takes_nothing() {
    let input = be16(28);
    let (rest, p) = generic_data28(&input).unwrap();
    assert_eq!(rest, &input[..]);
    assert_eq!(p, SymPacketData::GenericData28);
    assert_eq!(p.num_bins(), 0);
}

#[test]
fn symbology_header_requires_block_id_one() {
    let mut input = be16(-1);
    input.extend(be16(2));
    input.extend(be32(100));
    input.extend(be16(1));
    assert_eq!(symbology_header(&input), Err(Error::SymbologyHeaderInvalid(2)));
}

#[test]
fn symbology_header_checks_id_before_length() {
    assert_eq!(symbology_header(&[0xFF, 0xFF, 0x00, 0x02]), Err(Error::SymbologyHeaderInvalid(2)));
    assert_eq!(
        symbology_header(&[0xFF, 0xFF, 0x01, 0x01, 0, 0]),
        Err(Error::SymbologyHeaderInvalid(257))
    );
    assert_eq!(
        symbology_header(&[0xFF, 0xFF, 0x00, 0x01]),
        Err(Error::TruncatedInput { needed: 10, had: 4 })
    );
    assert_eq!(
        symbology_header(&[0xFF, 0xFF, 0x00]),
        Err(Error::TruncatedInput { needed: 4, had: 3 })
    );
    assert_eq!(
        symbology(&[0xFF, 0xFF, 0x00, 0x02, 0, 0, 0], LayerFraming::Delimited),
        Err(Error::SymbologyHeaderInvalid(2))
    );
}

#[test]
fn symbology_header_keeps_bad_divider() {
    let mut input = be16(7);
    input.extend(be16(1));
    input.extend(be32(100));
    input.extend(be16(3));
    let (rest, h) = symbology_header(&input).unwrap();
    assert!(rest.is_empty());
    assert_eq!(h.divider, 7);
    assert_eq!(h.id, 1);
    assert_eq!(h.block_length, 100);
    assert_eq!(h.layers, 3);
}

#[test]
fn symbology_block_with_two_layers_in_order() {
    let input = symbology_bytes(&[digital_packet(), rle_packet()]);
    let (rest, block) = symbology(&input, LayerFraming::Delimited).unwrap();
    assert!(rest.is_empty());
    assert_eq!(block.header.layers, 2);
    assert_eq!(block.header.block_length, 1234);
    assert_eq!(block.layers.len(), 2);
    assert_eq!(block.layers[0].packet.num_bins(), 4);
    assert!(matches!(block.layers[0].packet, SymPacketData::DigitalRadialDataArray(_)));
    assert!(matches!(block.layers[1].packet, SymPacketData::RadialDataAF1F(_)));
}

#[test]
fn symbology_unsupported_packet_code_fails_whole_block() {
    let mut bad = be16(6);
    bad.extend([0, 0, 0, 0]);
    let input = symbology_bytes(&[digital_packet(), bad]);
    assert_eq!(
        symbology(&input, LayerFraming::Delimited),
        Err(Error::PacketCodeUnsupported(6))
    );
}

#[test]
fn symbology_layer_count_is_authoritative() {
    let mut input = symbology_bytes(&[digital_packet(), digital_packet()]);
    input[8] = 0;
    input[9] = 1;
    let (rest, block) = symbology(&input, LayerFraming::Delimited).unwrap();
    assert_eq!(block.layers.len(), 1);
    assert_eq!(rest.len(), 6 + digital_packet().len());
}

#[test]
fn detected_framing_with_and_without_divider() {
    let mut input = be16(-1);
    input.extend(be16(1));
    input.extend(be32(0));
    input.extend(be16(2));
    input.extend(digital_packet());
    input.extend(be16(-1));
    input.extend(be32(0));
    input.extend(rle_packet());
    let (rest, block) = symbology(&input, LayerFraming::Detected).unwrap();
    assert!(rest.is_empty());
    assert_eq!(block.layers[0].frame, None);
    assert_eq!(block.layers[1].frame, Some(LayerFrame { divider: -1, length: 0 }));
    assert!(matches!(block.layers[0].packet, SymPacketData::DigitalRadialDataArray(_)));
    assert!(matches!(block.layers[1].packet, SymPacketData::RadialDataAF1F(_)));
}

#[test]
fn delimited_layer_skips_frame() {
    let mut input = be16(-1);
    input.extend(be32(5));
    input.extend(digital_packet());
    let (rest, layer) = symbology_layer(&input, LayerFraming::Delimited).unwrap();
    assert!(rest.is_empty());
    assert_eq!(layer.frame, Some(LayerFrame { divider: -1, length: 5 }));
    assert!(matches!(layer.packet, SymPacketData::DigitalRadialDataArray(_)));
}

#[test]
fn every_prefix_is_truncated_never_a_panic() {
    let full = symbology_bytes(&[digital_packet(), rle_packet(), text_colored()]);
    for n in 0..full.len() {
        match symbology(&full[..n], LayerFraming::Delimited) {
            Err(Error::TruncatedInput { needed, had }) => assert!(had < needed),
            other => panic!("prefix {} gave {:?}", n, other),
        }
    }
    assert!(symbology(&full, LayerFraming::Delimited).is_ok());
}

#[test]
fn packet_decoders_on_short_input() {
    assert_eq!(
        digital_radial_data_array(&[0, 16, 0]),
        Err(Error::TruncatedInput { needed: 14, had: 3 })
    );
    assert_eq!(
        radial_data_af1f(&packet_header(-20705, 1, 1)),
        Err(Error::TruncatedInput { needed: 6, had: 0 })
    );
    assert_eq!(text_and_symbol(&[0, 8, 0]), Err(Error::TruncatedInput { needed: 4, had: 3 }));
    assert_eq!(
        text_and_symbol(&[0, 8, 0, 10, 0, 0]),
        Err(Error::TruncatedInput { needed: 6, had: 2 })
    );
    assert_eq!(symbology_header(&[0xFF]), Err(Error::TruncatedInput { needed: 4, had: 1 }));
    assert_eq!(
        symbology_layer(&[0xFF, 0xFF], LayerFraming::Detected),
        Err(Error::TruncatedInput { needed: 6, had: 2 })
    );
}

#[test]
fn radial_data_blocks_decode_one_radial() {
    let mut input = radial_header(1, 20, 10);
    input.extend([0x31, 0x42, 0xAA]);
    let (rest, r) = radar::run_length::data_block(&input).unwrap();
    assert_eq!(rest, &[0xAA]);
    assert_eq!(r.header.angle_start, 20);
    assert_eq!(
        r.data,
        vec![RunLevelEncoding { run: 3, color: 1 }, RunLevelEncoding { run: 4, color: 2 }]
    );
    let (rest, d) = radar::digital_radial::data_block(&input, 2).unwrap();
    assert_eq!(rest, &[0xAA]);
    assert_eq!(d.data, vec![0x31, 0x42]);
    assert_eq!(
        radar::run_length::data_block(&input[..7]),
        Err(Error::TruncatedInput { needed: 2, had: 1 })
    );
}

#[test]
fn run_length_array_prefixes_are_truncated() {
    let mut full = packet_header(-20705, 230, 2);
    full.extend(radial_header(1, 0, 10));
    full.extend([0x31, 0x42]);
    full.extend(radial_header(2, 10, 10));
    full.extend([0x11, 0x22, 0x33, 0x44]);
    assert_eq!(full.len(), 14 + (6 + 2) + (6 + 4));
    for n in 0..full.len() {
        assert!(matches!(radial_data_af1f(&full[..n]), Err(Error::TruncatedInput { .. })));
    }
    let (rest, _) = radial_data_af1f(&full).unwrap();
    assert!(rest.is_empty());
}

#[test]
fn text_layer_in_detected_block() {
    let mut input = be16(-1);
    input.extend(be16(1));
    input.extend(be32(0));
    input.extend(be16(2));
    input.extend(text_colored());
    input.extend(be16(-1));
    input.extend(be32(0));
    input.extend(rle_packet());
    let (rest, block) = symbology(&input, LayerFraming::Detected).unwrap();
    assert!(rest.is_empty());
    assert_eq!(block.layers[0].frame, None);
    match &block.layers[0].packet {
        SymPacketData::TextAndSpecialSymbol8(t) => assert_eq!(t.text, "KLOT"),
        other => panic!("unexpected packet {:?}", other),
    }
    assert!(matches!(block.layers[1].packet, SymPacketData::RadialDataAF1F(_)));
}

#[test]
fn text_symbol_code_two_has_no_color_level() {
    let mut input = be16(2);
    input.extend(be16(6));
    input.extend(be16(-7));
    input.extend(be16(9));
    input.extend(b"ok");
    input.push(0x55);
    let (rest, p) = text_and_symbol(&input).unwrap();
    assert_eq!(rest, &[0x55]);
    match p {
        SymPacketData::TextAndSpecialSymbol2(t) => {
            assert_eq!(t.packet_code, PacketCode::TextAndSpecialSymbol2);
            assert_eq!(t.color_level, None);
            assert_eq!(t.i_coord, -7);
            assert_eq!(t.j_coord, 9);
            assert_eq!(t.text, "ok");
        }
        other => panic!("unexpected packet {:?}", other),
    }
}

#[test]
fn delimited_layer_with_code_two_is_decoded() {
    let mut input = be16(-1);
    input.extend(be32(10));
    input.extend(be16(2));
    input.extend(be16(5));
    input.extend(be16(1));
    input.extend(be16(2));
    input.extend(b"A");
    let (rest, layer) = symbology_layer(&input, LayerFraming::Delimited).unwrap();
    assert!(rest.is_empty());
    assert!(matches!(layer.packet, SymPacketData::TextAndSpecialSymbol2(_)));
}
