use std::io::Write;

use radar::{Error, LayerFrame, LayerFraming, MessageCode, Radar, SymPacketData, Warning};

fn be16(v: i16) -> Vec<u8> {
    v.to_be_bytes().to_vec()
}

fn be32(v: i32) -> Vec<u8> {
    v.to_be_bytes().to_vec()
}

fn header_section(code: i16, version: u8, offset_symbology: i32) -> Vec<u8> {
    let mut b = b"SDUS53 KLOT 051200\r\r\nNXRN0R\r\r\n".to_vec();
    for v in [code, 19_000] {
        b.extend(be16(v));
    }
    b.extend(be32(4200));
    b.extend(be32(5000));
    for v in [1, 2, 3] {
        b.extend(be16(v));
    }
    b.extend(be16(-1));
    b.extend(be32(41_000));
    b.extend(be32(-88_000));
    for v in [650, code, 2, 212, 11, 42, 19_000] {
        b.extend(be16(v));
    }
    b.extend(be32(3600));
    b.extend(be16(19_001));
    b.extend(be32(7200));
    b.extend([1, 2, 3, 4]);
    b.extend(be16(5));
    b.extend([6, 7]);
    b.extend([0x11; 32]);
    b.extend([0x22; 14]);
    b.push(version);
    b.push(0);
    b.extend(be32(offset_symbology));
    b.extend(be32(0));
    b.extend(be32(0));
    assert_eq!(b.len(), 150);
    b
}

fn digital_layer() -> Vec<u8> {
    let mut b = Vec::new();
    for v in [16, 0, 3, 256, 256, 999, 2] {
        b.extend(be16(v));
    }
    b.extend(be16(3));
    b.extend(be16(0));
    b.extend(be16(10));
    b.extend([10, 20, 30]);
    b.extend(be16(3));
    b.extend(be16(10));
    b.extend(be16(10));
    b.extend([40, 50, 60]);
    b
}

fn payload() -> Vec<u8> {
    let layer = digital_layer();
    let mut b = be16(-1);
    b.extend(be16(1));
    b.extend(be32(16 + layer.len() as i32));
    b.extend(be16(1));
    b.extend(be16(-1));
    b.extend(be32(layer.len() as i32));
    b.extend(layer);
    b
}

#[test]
fn round_trip_of_synthetic_message() {
    let header = header_section(94, 0, 60);
    let mut body = payload();
    body.extend([0xAB, 0xCD]);
    let (rest, radar) = Radar::parse(&header, &body, LayerFraming::Delimited).unwrap();
    assert_eq!(rest, &[0xAB, 0xCD]);
    assert_eq!(radar.text_header.location, "KLOT");
    let m = radar.message_header;
    assert_eq!(m.code, MessageCode::BaseReflectivityDataArray);
    assert_eq!(m.datetime, 19_000 * 86_400 + 4200);
    assert_eq!((m.length, m.source, m.dest, m.nblocks), (5000, 1, 2, 3));
    let d = &radar.product_description;
    assert_eq!((d.latitude, d.longitude, d.height, d.product_code), (41_000, -88_000, 650, 94));
    assert_eq!(d.threshold_data, vec![0x11; 32]);
    assert_eq!(d.halfwords_47_53, vec![0x22; 14]);
    assert_eq!(d.offset_symbology, 60);
    assert!(radar.warnings().is_empty());
    let block = radar.symbology.unwrap();
    assert_eq!(block.header.id, 1);
    assert_eq!(block.layers[0].frame, Some(LayerFrame { divider: -1, length: 32 }));
    assert_eq!(block.layers.len(), 1);
    match &block.layers[0].packet {
        SymPacketData::DigitalRadialDataArray(p) => {
            assert_eq!(p.header.num_radials, 2);
            assert_eq!(p.radials[0].header.angle_start, 0);
            assert_eq!(p.radials[0].data, vec![10, 20, 30]);
            assert_eq!(p.radials[1].header.angle_start, 10);
            assert_eq!(p.radials[1].data, vec![40, 50, 60]);
        }
        other => panic!("unexpected layer {:?}", other),
    }
}

#[test]
fn no_symbology_without_offset() {
    let header = header_section(94, 0, 0);
    let body = payload();
    let (rest, radar) = Radar::parse(&header, &body, LayerFraming::Delimited).unwrap();
    assert_eq!(rest, &body[..]);
    assert!(radar.symbology.is_none());
}

#[test]
fn unsupported_product_stops_after_message_header() {
    let header = header_section(2, 0, 60);
    let expected = Err(Error::ProductTypeUnsupported(MessageCode::GeneralStatus));
    assert_eq!(Radar::parse(&header, &payload(), LayerFraming::Delimited), expected);
    assert_eq!(Radar::parse(&header[..48], &[], LayerFraming::Delimited), expected);
}

#[test]
fn version_above_matrix_is_rejected() {
    let header = header_section(94, 1, 60);
    assert_eq!(
        Radar::parse(&header, &payload(), LayerFraming::Delimited),
        Err(Error::VersionUnsupported(1, 0))
    );
    let header = header_section(32, 2, 0);
    assert!(Radar::parse(&header, &[], LayerFraming::Delimited).is_ok());
    let header = header_section(32, 3, 0);
    assert_eq!(
        Radar::parse(&header, &[], LayerFraming::Delimited),
        Err(Error::VersionUnsupported(3, 2))
    );
}

#[test]
fn truncated_header_section() {
    let header = header_section(94, 0, 60);
    assert_eq!(
        Radar::parse(&header[..100], &payload(), LayerFraming::Delimited),
        Err(Error::TruncatedInput { needed: 102, had: 52 })
    );
}

#[test]
fn bad_symbology_header_fails_message() {
    let header = header_section(94, 0, 60);
    let mut body = payload();
    body[3] = 9;
    assert_eq!(
        Radar::parse(&header, &body, LayerFraming::Delimited),
        Err(Error::SymbologyHeaderInvalid(9))
    );
}

#[test]
fn from_vec_plain_payload() {
    let mut file = header_section(94, 0, 60);
    file.extend(payload());
    file.push(0x01);
    let (left, radar) = Radar::from_vec(file).unwrap();
    assert_eq!(left, vec![0x01]);
    assert_eq!(radar.symbology.unwrap().layers.len(), 1);
}

#[test]
fn from_vec_compressed_payload() {
    let mut encoder = bzip2::write::BzEncoder::new(Vec::new(), bzip2::Compression::best());
    encoder.write_all(&payload()).unwrap();
    let compressed = encoder.finish().unwrap();
    assert_eq!(&compressed[..2], b"BZ");
    let mut file = header_section(94, 0, 60);
    file.extend(compressed);
    let (left, radar) = Radar::from_vec(file).unwrap();
    assert!(left.is_empty());
    let block = radar.symbology.unwrap();
    assert_eq!(block.layers[0].packet.num_bins(), 3);
}

#[test]
fn from_vec_short_file() {
    assert_eq!(
        Radar::from_vec(vec![0; 149]),
        Err(Error::TruncatedInput { needed: 150, had: 149 })
    );
}

#[test]
fn warnings_list_every_bad_divider_in_order() {
    let mut header = header_section(94, 0, 60);
    header[48] = 0;
    header[49] = 4;
    let mut body = payload();
    body[0] = 0;
    body[1] = 2;
    body[10] = 0;
    body[11] = 3;
    let (_, radar) = Radar::parse(&header, &body, LayerFraming::Delimited).unwrap();
    assert_eq!(
        radar.warnings(),
        vec![
            Warning::DescriptionDivider(4),
            Warning::SymbologyDivider(2),
            Warning::LayerDivider(0, 3),
        ]
    );
}

#[test]
fn warnings_without_symbology() {
    let mut header = header_section(94, 0, 0);
    header[48] = 0x7F;
    header[49] = 0xFF;
    let (_, radar) = Radar::parse(&header, &[], LayerFraming::Delimited).unwrap();
    assert_eq!(radar.warnings(), vec![Warning::DescriptionDivider(i16::MAX)]);
}
