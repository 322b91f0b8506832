//! Decoder for NEXRAD Level III graphic product messages.
//!
//! Every decoder takes an immutable byte view and returns the unconsumed
//! remainder with the decoded value, or an [`Error`]. Each one is specified by
//! a parser written as a spec function over `Seq<u8>`, and the executable code
//! is proved to agree with it on every input; running out of bytes is always
//! a `TruncatedInput` error, never an out-of-bounds read.
pub mod bytes;
pub mod codes;
pub mod diagnostics;
pub mod digital_radial;
pub mod encode;
pub mod error;
pub mod laws;
pub mod message_header;
pub mod product_description;
pub mod radar;
pub mod radial;
pub mod repeat;
pub mod run_length;
pub mod symbology;
pub mod text;
pub mod text_header;
pub mod text_packet;

pub use codes::{MessageCode, PacketCode};
pub use diagnostics::Warning;
pub use digital_radial::{digital_radial_packet, DigitalRadial, DigitalRadialPacket};
pub use error::{Error, TextFault};
pub use message_header::{message_header, MessageHeader};
pub use product_description::{product_description, ProductDescription};
pub use radar::Radar;
pub use radial::{
    radial_header, radial_packet_header, DigitalRadialHeader, DigitalRadialPacketHeader,
    RadialHeader, RadialPacketHeader,
};
pub use run_length::{rle_radial_packet, Radial, RadialPacket, RunLevelEncoding};
pub use symbology::{
    digital_radial_data_array, generic_data28, radial_data_af1f, symbology, symbology_header,
    symbology_layer, text_and_symbol, LayerFrame, LayerFraming, SymPacketData, SymbologyBlock,
    SymbologyHeader, SymbologyLayer,
};
pub use text_header::{text_header, TextHeader};
pub use text_packet::{text_packet, TextPacket};
