//! The whole product message: header section, gates on the support matrix,
//! and the symbology block of the payload.
use vstd::prelude::*;

use crate::bytes::{agrees, truncated};
use crate::codes::{is_registered, max_version_of};
use crate::error::Error;
use crate::message_header::{message_header, parse_message_header, MessageHeader};
use crate::product_description::{
    parse_product_description, product_description, ProductDescription, ProductDescriptionView,
};
use crate::symbology::{parse_symbology, symbology, LayerFraming, SymbologyBlock, SymbologyBlockView};
use crate::text_header::{parse_text_header, text_header, TextHeader, TextHeaderView};

verus! {

/// The number of bytes of the header section of a product file: text
/// envelope, message header and product description.
pub const HEADER_SECTION_LEN: usize = 150;

/// A decoded product message.
#[derive(Clone, Debug, PartialEq, Eq)]
pub struct Radar {
    pub text_header: TextHeader,
    pub message_header: MessageHeader,
    pub product_description: ProductDescription,
    /// The symbology block, where the description gives it an offset.
    pub symbology: Option<SymbologyBlock>,
}

pub struct RadarView {
    pub text_header: TextHeaderView,
    pub message_header: MessageHeader,
    pub product_description: ProductDescriptionView,
    pub symbology: Option<SymbologyBlockView>,
}

impl View for Radar {
    type V = RadarView;

    open spec fn view(&self) -> RadarView {
        RadarView {
            text_header: self.text_header@,
            message_header: self.message_header,
            product_description: self.product_description@,
            symbology: match self.symbology {
                Some(b) => Some(b@),
                None => None,
            },
        }
    }
}

/// The product message held by `header` (the header section) and `payload`
/// (the bytes after it, already decompressed), and the bytes of `payload` it
/// takes. The product code must be in the support matrix, and the
/// description's version at most the one registered for it; the symbology
/// block is decoded only where its offset is positive.
pub open spec fn parse_radar(header: Seq<u8>, payload: Seq<u8>, framing: LayerFraming) -> Result<
    (RadarView, nat),
    Error,
> {
    match parse_text_header(header) {
        Err(e) => Err(e),
        Ok((text, a)) => match parse_message_header(header.skip(a as int)) {
            Err(e) => Err(e),
            Ok((message, b)) => if !is_registered(message.code.spec_value()) {
                Err(Error::ProductTypeUnsupported(message.code))
            } else {
                match parse_product_description(header.skip(a as int).skip(b as int)) {
                    Err(e) => Err(e),
                    Ok((description, _)) => match max_version_of(message.code.spec_value()) {
                        Some(max) if description.version > max => Err(
                            Error::VersionUnsupported(description.version, max),
                        ),
                        _ => if description.offset_symbology > 0 {
                            match parse_symbology(payload, framing) {
                                Err(e) => Err(e),
                                Ok((block, n)) => Ok(
                                    (
                                        RadarView {
                                            text_header: text,
                                            message_header: message,
                                            product_description: description,
                                            symbology: Some(block),
                                        },
                                        n,
                                    ),
                                ),
                            }
                        } else {
                            Ok(
                                (
                                    RadarView {
                                        text_header: text,
                                        message_header: message,
                                        product_description: description,
                                        symbology: None,
                                    },
                                    0,
                                ),
                            )
                        },
                    },
                }
            },
        },
    }
}

/// What bzip2 decompression yields for `b`.
pub uninterp spec fn bunzip_of(b: Seq<u8>) -> Seq<u8>;

/// Relies on bzip2's bufread::BzDecoder, read to the end: the bytes it yields
/// (all of them, or those before an error in the stream) depend on the
/// compressed bytes alone.
#[verifier::external_body]
fn bunzip(b: &[u8]) -> (r: Vec<u8>)
    ensures
        r@ == bunzip_of(b@),
{
    let mut out: Vec<u8> = Vec::new();
    let _ = std::io::Read::read_to_end(&mut bzip2::bufread::BzDecoder::new(b), &mut out);
    out
}

/// Whether the payload opens with the bzip2 stream marker `BZ`.
pub open spec fn is_compressed(payload: Seq<u8>) -> bool {
    payload.len() >= 2 && payload[0] == 0x42 && payload[1] == 0x5A
}

/// The payload of `file` as the decoder sees it: the bytes after the header
/// section, decompressed where they open with the bzip2 marker.
pub open spec fn payload_of(file: Seq<u8>) -> Seq<u8> {
    let after = file.skip(HEADER_SECTION_LEN as int);
    if is_compressed(after) {
        bunzip_of(after)
    } else {
        after
    }
}

impl Radar {
    /// Decodes a product message from its header section and its payload.
    /// Returns the bytes of the payload after the symbology block (the whole
    /// payload where there is none).
    pub fn parse<'a>(header_section: &'a [u8], remaining_file: &'a [u8], framing: LayerFraming) -> (r:
        Result<(&'a [u8], Radar), Error>)
        ensures
            agrees(r, remaining_file@, parse_radar(header_section@, remaining_file@, framing)),
    {
        let (input, text) = match text_header(header_section) {
            Ok(x) => x,
            Err(e) => return Err(e),
        };
        let (input, message) = match message_header(input) {
            Ok(x) => x,
            Err(e) => return Err(e),
        };
        if !message.code.is_supported_product() {
            return Err(Error::ProductTypeUnsupported(message.code));
        }
        let (_, description) = match product_description(input) {
            Ok(x) => x,
            Err(e) => return Err(e),
        };
        match message.code.supported_version() {
            Some(max) => {
                if description.version > max {
                    return Err(Error::VersionUnsupported(description.version, max));
                }
            },
            None => {},
        }
        if description.offset_symbology > 0 {
            match symbology(remaining_file, framing) {
                Ok((rest, block)) => Ok(
                    (
                        rest,
                        Radar {
                            text_header: text,
                            message_header: message,
                            product_description: description,
                            symbology: Some(block),
                        },
                    ),
                ),
                Err(e) => Err(e),
            }
        } else {
            proof {
                assert(remaining_file@ =~= remaining_file@.skip(0));
            }
            Ok(
                (
                    remaining_file,
                    Radar {
                        text_header: text,
                        message_header: message,
                        product_description: description,
                        symbology: None,
                    },
                ),
            )
        }
    }

    /// Decodes a whole product file: the first 150 bytes are the header
    /// section, and the rest is decompressed first where it opens with the
    /// bzip2 marker. Layers are taken as delimited. Returns what is left of
    /// the payload after the symbology block.
    pub fn from_vec(file: Vec<u8>) -> (r: Result<(Vec<u8>, Radar), Error>)
        ensures
            file@.len() < HEADER_SECTION_LEN ==> r == Err::<(Vec<u8>, Radar), Error>(
                truncated(HEADER_SECTION_LEN as nat, file@),
            ),
            file@.len() >= HEADER_SECTION_LEN ==> match parse_radar(
                file@.take(HEADER_SECTION_LEN as int),
                payload_of(file@),
                LayerFraming::Delimited,
            ) {
                Ok((v, n)) => r matches Ok((left, radar)) && radar@ == v && left@ == payload_of(
                    file@,
                ).skip(n as int),
                Err(e) => r == Err::<(Vec<u8>, Radar), Error>(e),
            },
    {
        if file.len() < HEADER_SECTION_LEN {
            return Err(Error::TruncatedInput { needed: HEADER_SECTION_LEN, had: file.len() });
        }
        let (header, after) = file.as_slice().split_at(HEADER_SECTION_LEN);
        let payload: Vec<u8> = if after.len() >= 2 && after[0] == 0x42 && after[1] == 0x5A {
            bunzip(after)
        } else {
            vstd::slice::slice_to_vec(after)
        };
        match Radar::parse(header, payload.as_slice(), LayerFraming::Delimited) {
            Ok((left, radar)) => Ok((vstd::slice::slice_to_vec(left), radar)),
            Err(e) => Err(e),
        }
    }
}

} // verus!
