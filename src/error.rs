use vstd::prelude::*;

use crate::codes::MessageCode;

verus! {

/// Why a text field could not be decoded.
#[derive(Clone, Copy, Debug, PartialEq, Eq, Structural)]
pub enum TextFault {
    /// The declared length is shorter than the fields that precede the text.
    NegativeLength,
    /// The text bytes are not valid UTF-8.
    InvalidEncoding,
}

/// Every way a decode can fail. All of them end the current decode.
#[derive(Clone, Copy, Debug, PartialEq, Eq, Structural)]
pub enum Error {
    /// A literal of the text envelope did not match, or one of its fields is
    /// not valid text.
    Format,
    /// The message code is not in the support matrix.
    ProductTypeUnsupported(MessageCode),
    /// The description's version (first) is above the highest one that the
    /// support matrix registers for the product (second).
    VersionUnsupported(u8, u8),
    /// The symbology header's block id (held here) is not 1.
    SymbologyHeaderInvalid(i16),
    /// A layer starts with this packet code, which no decoder takes.
    PacketCodeUnsupported(i16),
    /// A read needed `needed` bytes where only `had` were left.
    TruncatedInput { needed: usize, had: usize },
    /// A text packet is malformed.
    MalformedText(TextFault),
}

} // verus!
