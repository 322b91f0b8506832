use radar::{
    message_header, product_description, text_header, Error, MessageCode, PacketCode,
};

fn be16(v: i16) -> Vec<u8> {
    v.to_be_bytes().to_vec()
}

fn be32(v: i32) -> Vec<u8> {
    v.to_be_bytes().to_vec()
}

fn envelope() -> Vec<u8> {
    b"SDUS53 KLOT 051200\r\r\nNXRN0R\r\r\n".to_vec()
}

fn message_bytes(code: i16, days: i16, seconds: i32) -> Vec<u8> {
    let mut b = Vec::new();
    b.extend(be16(code));
    b.extend(be16(days));
    b.extend(be32(seconds));
    b.extend(be32(1000));
    b.extend(be16(7));
    b.extend(be16(9));
    b.extend(be16(3));
    b
}

fn description_bytes(version: u8, offset_symbology: i32) -> Vec<u8> {
    let mut b = Vec::new();
    b.extend(be16(-1));
    b.extend(be32(41_000));
    b.extend(be32(-88_000));
    b.extend(be16(650));
    b.extend(be16(94));
    b.extend(be16(2));
    b.extend(be16(212));
    b.extend(be16(11));
    b.extend(be16(42));
    b.extend(be16(19_000));
    b.extend(be32(3600));
    b.extend(be16(19_001));
    b.extend(be32(7200));
    b.extend([1, 2, 3, 4]);
    b.extend(be16(5));
    b.extend([6, 7]);
    b.extend((0..32).map(|i| i as u8 + 10));
    b.extend((0..14).map(|i| i as u8 + 100));
    b.push(version);
    b.push(1);
    b.extend(be32(offset_symbology));
    b.extend(be32(0));
    b.extend(be32(-3));
    b
}

#[test]
fn text_header_reads_envelope() {
    let mut input = envelope();
    input.extend([0xAA, 0xBB]);
    let (rest, h) = text_header(&input).unwrap();
    assert_eq!(h.xx, 53);
    assert_eq!(h.location, "KLOT");
    assert_eq!(h.timestamp, "051200");
    assert_eq!(h.aaa, "NXR");
    assert_eq!(h.bbb, "N0R");
    assert_eq!(rest, &[0xAA, 0xBB]);
}

#[test]
fn text_header_rejects_wrong_literal() {
    let mut input = envelope();
    input[0] = b'X';
    assert_eq!(text_header(&input), Err(Error::Format));
}

#[test]
fn text_header_rejects_non_digit_id() {
    let mut input = envelope();
    input[5] = b'A';
    assert_eq!(text_header(&input), Err(Error::Format));
}

#[test]
fn text_header_rejects_missing_line_break() {
    let mut input = envelope();
    input[20] = b' ';
    assert_eq!(text_header(&input), Err(Error::Format));
}

#[test]
fn text_header_rejects_invalid_utf8() {
    let mut input = envelope();
    input[7] = 0xFF;
    assert_eq!(text_header(&input), Err(Error::Format));
}

#[test]
fn text_header_short_input_is_truncated() {
    let input = envelope();
    assert_eq!(
        text_header(&input[..10]),
        Err(Error::TruncatedInput { needed: 11, had: 10 })
    );
    assert_eq!(text_header(&input[..2]), Err(Error::TruncatedInput { needed: 4, had: 2 }));
    assert_eq!(text_header(&input[..29]), Err(Error::TruncatedInput { needed: 30, had: 29 }));
}

#[test]
fn text_header_short_input_with_wrong_literal_is_format() {
    assert_eq!(text_header(b"XDUS"), Err(Error::Format));
    assert_eq!(text_header(b"SDUS5"), Err(Error::TruncatedInput { needed: 6, had: 5 }));
    assert_eq!(text_header(b"SDUS5x"), Err(Error::Format));
    assert_eq!(text_header(b"SDUS53_"), Err(Error::Format));
    let mut input = envelope();
    input[7] = 0xFF;
    assert_eq!(text_header(&input[..12]), Err(Error::Format));
}

#[test]
fn message_header_reads_fields() {
    let mut input = message_bytes(94, 2, 100);
    input.push(0x55);
    let (rest, h) = message_header(&input).unwrap();
    assert_eq!(h.code, MessageCode::BaseReflectivityDataArray);
    assert_eq!(h.datetime, 2 * 86_400 + 100);
    assert_eq!(h.length, 1000);
    assert_eq!(h.source, 7);
    assert_eq!(h.dest, 9);
    assert_eq!(h.nblocks, 3);
    assert_eq!(rest, &[0x55]);
}

#[test]
fn message_header_keeps_unknown_code() {
    let input = message_bytes(1234, 0, 0);
    let (_, h) = message_header(&input).unwrap();
    assert_eq!(h.code, MessageCode::Unknown(1234));
    assert_eq!(h.code.value(), 1234);
}

#[test]
fn message_header_time_before_epoch() {
    let input = message_bytes(94, -1, 60);
    let (_, h) = message_header(&input).unwrap();
    assert_eq!(h.datetime, -86_400 + 60);
}

#[test]
fn message_header_extreme_time() {
    let input = message_bytes(94, i16::MAX, i32::MAX);
    let (_, h) = message_header(&input).unwrap();
    assert_eq!(h.datetime, 32_767 * 86_400 + 2_147_483_647);
}

#[test]
fn message_header_short_input_is_truncated() {
    let input = message_bytes(94, 0, 0);
    assert_eq!(
        message_header(&input[..17]),
        Err(Error::TruncatedInput { needed: 18, had: 17 })
    );
}

#[test]
fn product_description_reads_fields() {
    let mut input = description_bytes(3, 60);
    input.extend([9, 9, 9]);
    let (rest, d) = product_description(&input).unwrap();
    assert_eq!(d.divider, -1);
    assert_eq!(d.latitude, 41_000);
    assert_eq!(d.longitude, -88_000);
    assert_eq!(d.height, 650);
    assert_eq!(d.product_code, 94);
    assert_eq!(d.operational_mode, 2);
    assert_eq!(d.vcp, 212);
    assert_eq!(d.sequence_num, 11);
    assert_eq!(d.vol_scan_num, 42);
    assert_eq!(d.vol_scan_date, 19_000);
    assert_eq!(d.vol_scan_time, 3600);
    assert_eq!(d.product_date, 19_001);
    assert_eq!(d.product_time, 7200);
    assert_eq!(d.halfwords_27_28, vec![1, 2, 3, 4]);
    assert_eq!(d.elevation_num, 5);
    assert_eq!(d.halfwords_30, vec![6, 7]);
    assert_eq!(d.threshold_data, (0..32).map(|i| i as u8 + 10).collect::<Vec<u8>>());
    assert_eq!(d.halfwords_47_53, (0..14).map(|i| i as u8 + 100).collect::<Vec<u8>>());
    assert_eq!(d.version, 3);
    assert_eq!(d.spot_blank, 1);
    assert_eq!(d.offset_symbology, 60);
    assert_eq!(d.offset_graphic, 0);
    assert_eq!(d.offset_tabular, -3);
    assert_eq!(rest, &[9, 9, 9]);
}

#[test]
fn product_description_keeps_bad_divider() {
    let mut input = description_bytes(0, 0);
    input[0] = 0;
    input[1] = 5;
    let (_, d) = product_description(&input).unwrap();
    assert_eq!(d.divider, 5);
}

#[test]
fn product_description_short_input_is_truncated() {
    let input = description_bytes(0, 0);
    assert_eq!(
        product_description(&input[..101]),
        Err(Error::TruncatedInput { needed: 102, had: 101 })
    );
}

#[test]
fn support_matrix_lists_products() {
    assert!(MessageCode::BaseReflectivityDataArray.is_supported_product());
    assert!(MessageCode::DigitalHybridScanReflectivity.is_supported_product());
    assert!(!MessageCode::GeneralStatus.is_supported_product());
    assert!(!MessageCode::Unknown(1234).is_supported_product());
    assert!(MessageCode::from_i16(19).is_supported_product());
}

#[test]
fn support_matrix_versions() {
    assert_eq!(MessageCode::DigitalHybridScanReflectivity.supported_version(), Some(2));
    assert_eq!(MessageCode::SurfaceRainfallAccumulation1hr.supported_version(), Some(1));
    assert_eq!(MessageCode::BaseReflectivityDataArray.supported_version(), Some(0));
    assert_eq!(MessageCode::GeneralStatus.supported_version(), None);
    assert_eq!(MessageCode::from_i16(186).supported_version(), Some(0));
}

#[test]
fn codes_map_both_ways() {
    assert_eq!(MessageCode::from_i16(94), MessageCode::BaseReflectivityDataArray);
    assert_eq!(MessageCode::StormTotalSnowDepth.value(), 147);
    assert_eq!(PacketCode::from_i16(-20705), PacketCode::RadialDataAF1F);
    assert_eq!(PacketCode::from_i16(16), PacketCode::DigitalRadialDataArray);
    assert_eq!(PacketCode::from_i16(0), PacketCode::Unknown(0));
    assert_eq!(PacketCode::RasterDataBA0F.value(), -17905);
}

#[test]
fn dispatchable_packet_codes() {
    for code in [16, -20705, 1, 2, 8, 28] {
        assert!(PacketCode::from_i16(code).is_supported_product());
    }
    for code in [6, 17, 29, 0, 999, -1] {
        assert!(!PacketCode::from_i16(code).is_supported_product());
    }
}
