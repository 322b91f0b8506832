//! The 102-byte product description block.
use vstd::prelude::*;
use vstd::slice::slice_to_vec;

use crate::bytes::{agrees, be_i16, be_i32, read_i16, read_i32, truncated};
use crate::error::Error;

verus! {

/// The number of bytes of the product description.
pub const PRODUCT_DESCRIPTION_LEN: usize = 102;

/// The product description block. The product dependent byte ranges are kept
/// as they stand: their meaning depends on the product code.
#[derive(Clone, Debug, PartialEq, Eq)]
pub struct ProductDescription {
    /// Block divider, -1.
    pub divider: i16,
    /// Latitude of the radar, + for north.
    pub latitude: i32,
    /// Longitude of the radar, + for east.
    pub longitude: i32,
    /// Height of the radar, feet above mean sea level.
    pub height: i16,
    /// The product code.
    pub product_code: i16,
    /// 0 = maintenance, 1 = clean air, 2 = precipitation.
    pub operational_mode: i16,
    /// Volume coverage pattern of the scan strategy.
    pub vcp: i16,
    /// Sequence number of the request.
    pub sequence_num: i16,
    /// Volume scan number.
    pub vol_scan_num: i16,
    /// Volume scan start date, days since 1 January 1970.
    pub vol_scan_date: i16,
    /// Volume scan start time, seconds since midnight.
    pub vol_scan_time: i32,
    /// Product generation date, days since 1 January 1970.
    pub product_date: i16,
    /// Product generation time, seconds since midnight.
    pub product_time: i32,
    /// Product dependent parameters 1 and 2, verbatim.
    pub halfwords_27_28: Vec<u8>,
    /// Elevation number within the volume scan.
    pub elevation_num: i16,
    /// Product dependent parameter 3, verbatim.
    pub halfwords_30: Vec<u8>,
    /// Data level threshold values, verbatim.
    pub threshold_data: Vec<u8>,
    /// Product dependent parameters 4 to 10, verbatim.
    pub halfwords_47_53: Vec<u8>,
    /// Version of the product.
    pub version: u8,
    /// 1 = spot blanking on, 0 = off.
    pub spot_blank: u8,
    /// Halfword offset of the symbology block; zero or negative when absent.
    pub offset_symbology: i32,
    /// Halfword offset of the graphic block; zero or negative when absent.
    pub offset_graphic: i32,
    /// Halfword offset of the tabular block; zero or negative when absent.
    pub offset_tabular: i32,
}

/// The product description with its byte ranges as sequences.
pub struct ProductDescriptionView {
    pub divider: i16,
    pub latitude: i32,
    pub longitude: i32,
    pub height: i16,
    pub product_code: i16,
    pub operational_mode: i16,
    pub vcp: i16,
    pub sequence_num: i16,
    pub vol_scan_num: i16,
    pub vol_scan_date: i16,
    pub vol_scan_time: i32,
    pub product_date: i16,
    pub product_time: i32,
    pub halfwords_27_28: Seq<u8>,
    pub elevation_num: i16,
    pub halfwords_30: Seq<u8>,
    pub threshold_data: Seq<u8>,
    pub halfwords_47_53: Seq<u8>,
    pub version: u8,
    pub spot_blank: u8,
    pub offset_symbology: i32,
    pub offset_graphic: i32,
    pub offset_tabular: i32,
}

impl View for ProductDescription {
    type V = ProductDescriptionView;

    open spec fn view(&self) -> ProductDescriptionView {
        ProductDescriptionView {
            divider: self.divider,
            latitude: self.latitude,
            longitude: self.longitude,
            height: self.height,
            product_code: self.product_code,
            operational_mode: self.operational_mode,
            vcp: self.vcp,
            sequence_num: self.sequence_num,
            vol_scan_num: self.vol_scan_num,
            vol_scan_date: self.vol_scan_date,
            vol_scan_time: self.vol_scan_time,
            product_date: self.product_date,
            product_time: self.product_time,
            halfwords_27_28: self.halfwords_27_28@,
            elevation_num: self.elevation_num,
            halfwords_30: self.halfwords_30@,
            threshold_data: self.threshold_data@,
            halfwords_47_53: self.halfwords_47_53@,
            version: self.version,
            spot_blank: self.spot_blank,
            offset_symbology: self.offset_symbology,
            offset_graphic: self.offset_graphic,
            offset_tabular: self.offset_tabular,
        }
    }
}

/// The product description at the start of `s`, and the bytes it takes.
pub open spec fn parse_product_description(s: Seq<u8>) -> Result<(ProductDescriptionView, nat), Error> {
    if s.len() < PRODUCT_DESCRIPTION_LEN {
        Err(truncated(PRODUCT_DESCRIPTION_LEN as nat, s))
    } else {
        Ok(
            (
                ProductDescriptionView {
                    divider: be_i16(s, 0),
                    latitude: be_i32(s, 2),
                    longitude: be_i32(s, 6),
                    height: be_i16(s, 10),
                    product_code: be_i16(s, 12),
                    operational_mode: be_i16(s, 14),
                    vcp: be_i16(s, 16),
                    sequence_num: be_i16(s, 18),
                    vol_scan_num: be_i16(s, 20),
                    vol_scan_date: be_i16(s, 22),
                    vol_scan_time: be_i32(s, 24),
                    product_date: be_i16(s, 28),
                    product_time: be_i32(s, 30),
                    halfwords_27_28: s.subrange(34, 38),
                    elevation_num: be_i16(s, 38),
                    halfwords_30: s.subrange(40, 42),
                    threshold_data: s.subrange(42, 74),
                    halfwords_47_53: s.subrange(74, 88),
                    version: s[88],
                    spot_blank: s[89],
                    offset_symbology: be_i32(s, 90),
                    offset_graphic: be_i32(s, 94),
                    offset_tabular: be_i32(s, 98),
                },
                PRODUCT_DESCRIPTION_LEN as nat,
            ),
        )
    }
}

/// Decodes the product description at the start of `input`. A divider other
/// than -1 is kept as it stands in `divider`; it does not fail the decode.
pub fn product_description(input: &[u8]) -> (r: Result<(&[u8], ProductDescription), Error>)
    ensures
        agrees(r, input@, parse_product_description(input@)),
{
    if input.len() < PRODUCT_DESCRIPTION_LEN {
        return Err(Error::TruncatedInput { needed: PRODUCT_DESCRIPTION_LEN, had: input.len() });
    }
    let description = ProductDescription {
        divider: read_i16(input, 0),
        latitude: read_i32(input, 2),
        longitude: read_i32(input, 6),
        height: read_i16(input, 10),
        product_code: read_i16(input, 12),
        operational_mode: read_i16(input, 14),
        vcp: read_i16(input, 16),
        sequence_num: read_i16(input, 18),
        vol_scan_num: read_i16(input, 20),
        vol_scan_date: read_i16(input, 22),
        vol_scan_time: read_i32(input, 24),
        product_date: read_i16(input, 28),
        product_time: read_i32(input, 30),
        halfwords_27_28: slice_to_vec(&input[34..38]),
        elevation_num: read_i16(input, 38),
        halfwords_30: slice_to_vec(&input[40..42]),
        threshold_data: slice_to_vec(&input[42..74]),
        halfwords_47_53: slice_to_vec(&input[74..88]),
        version: input[88],
        spot_blank: input[89],
        offset_symbology: read_i32(input, 90),
        offset_graphic: read_i32(input, 94),
        offset_tabular: read_i32(input, 98),
    };
    let (_, rest) = input.split_at(PRODUCT_DESCRIPTION_LEN);
    Ok((rest, description))
}

} // verus!
