//! The place in a frame where a protocol violation was seen, from `data[3]`
//! of an error frame.
//!
//! The codes are not a bitmask: they form a table of non-contiguous values.

use vstd::prelude::*;
use crate::failure::CanErrorDecodingFailure;

verus! {

/// The location of a CAN bus protocol violation.
///
/// This describes the position inside a received frame (as in the field
/// or bit) at which an error occurred.
#[derive(Copy, Clone, Debug, PartialEq, Eq, Structural)]
pub enum Location {
    /// Unspecified
    Unspecified,
    /// Start of frame.
    StartOfFrame,
    /// ID bits 28-21 (SFF: 10-3)
    Id2821,
    /// ID bits 20-18 (SFF: 2-0)
    Id2018,
    /// substitute RTR (SFF: RTR)
    SubstituteRtr,
    /// extension of identifier
    IdentifierExtension,
    /// ID bits 17-13
    Id1713,
    /// ID bits 12-5
    Id1205,
    /// ID bits 4-0
    Id0400,
    /// RTR bit
    Rtr,
    /// Reserved bit 1
    Reserved1,
    /// Reserved bit 0
    Reserved0,
    /// Data length
    DataLengthCode,
    /// Data section
    DataSection,
    /// CRC sequence
    CrcSequence,
    /// CRC delimiter
    CrcDelimiter,
    /// ACK slot
    AckSlot,
    /// ACK delimiter
    AckDelimiter,
    /// End-of-frame
    EndOfFrame,
    /// Intermission (between frames)
    Intermission,
}

/// The location that the byte `val` encodes, or the failure to recognise it.
pub open spec fn location_of(val: u8) -> Result<Location, CanErrorDecodingFailure> {
    match val {
        0x00 => Ok(Location::Unspecified),
        0x03 => Ok(Location::StartOfFrame),
        0x02 => Ok(Location::Id2821),
        0x06 => Ok(Location::Id2018),
        0x04 => Ok(Location::SubstituteRtr),
        0x05 => Ok(Location::IdentifierExtension),
        0x07 => Ok(Location::Id1713),
        0x0F => Ok(Location::Id1205),
        0x0E => Ok(Location::Id0400),
        0x0C => Ok(Location::Rtr),
        0x0D => Ok(Location::Reserved1),
        0x09 => Ok(Location::Reserved0),
        0x0B => Ok(Location::DataLengthCode),
        0x0A => Ok(Location::DataSection),
        0x08 => Ok(Location::CrcSequence),
        0x18 => Ok(Location::CrcDelimiter),
        0x19 => Ok(Location::AckSlot),
        0x1B => Ok(Location::AckDelimiter),
        0x1A => Ok(Location::EndOfFrame),
        0x12 => Ok(Location::Intermission),
        _ => Err(CanErrorDecodingFailure::InvalidLocation),
    }
}

impl Location {
    /// The human-readable description of the location.
    pub open spec fn text(self) -> Seq<char> {
        match self {
            Location::Unspecified => "unspecified location"@,
            Location::StartOfFrame => "start of frame"@,
            Location::Id2821 => "ID, bits 28-21"@,
            Location::Id2018 => "ID, bits 20-18"@,
            Location::SubstituteRtr => "substitute RTR bit"@,
            Location::IdentifierExtension => "ID, extension"@,
            Location::Id1713 => "ID, bits 17-13"@,
            Location::Id1205 => "ID, bits 12-05"@,
            Location::Id0400 => "ID, bits 04-00"@,
            Location::Rtr => "RTR bit"@,
            Location::Reserved1 => "reserved bit 1"@,
            Location::Reserved0 => "reserved bit 0"@,
            Location::DataLengthCode => "data length code"@,
            Location::DataSection => "data section"@,
            Location::CrcSequence => "CRC sequence"@,
            Location::CrcDelimiter => "CRC delimiter"@,
            Location::AckSlot => "ACK slot"@,
            Location::AckDelimiter => "ACK delimiter"@,
            Location::EndOfFrame => "end of frame"@,
            Location::Intermission => "intermission"@,
        }
    }

    /// Renders the location as text.
    pub fn to_string(&self) -> (r: String)
        ensures
            r@ == self.text(),
    {
        let msg = match self {
            Location::Unspecified => "unspecified location",
            Location::StartOfFrame => "start of frame",
            Location::Id2821 => "ID, bits 28-21",
            Location::Id2018 => "ID, bits 20-18",
            Location::SubstituteRtr => "substitute RTR bit",
            Location::IdentifierExtension => "ID, extension",
            Location::Id1713 => "ID, bits 17-13",
            Location::Id1205 => "ID, bits 12-05",
            Location::Id0400 => "ID, bits 04-00",
            Location::Rtr => "RTR bit",
            Location::Reserved1 => "reserved bit 1",
            Location::Reserved0 => "reserved bit 0",
            Location::DataLengthCode => "data length code",
            Location::DataSection => "data section",
            Location::CrcSequence => "CRC sequence",
            Location::CrcDelimiter => "CRC delimiter",
            Location::AckSlot => "ACK slot",
            Location::AckDelimiter => "ACK delimiter",
            Location::EndOfFrame => "end of frame",
            Location::Intermission => "intermission",
        };
        String::from_str(msg)
    }
}

impl TryFrom<u8> for Location {
    type Error = CanErrorDecodingFailure;

    fn try_from(val: u8) -> (r: Result<Self, Self::Error>) {
        match val {
            0x00 => Ok(Location::Unspecified),
            0x03 => Ok(Location::StartOfFrame),
            0x02 => Ok(Location::Id2821),
            0x06 => Ok(Location::Id2018),
            0x04 => Ok(Location::SubstituteRtr),
            0x05 => Ok(Location::IdentifierExtension),
            0x07 => Ok(Location::Id1713),
            0x0F => Ok(Location::Id1205),
            0x0E => Ok(Location::Id0400),
            0x0C => Ok(Location::Rtr),
            0x0D => Ok(Location::Reserved1),
            0x09 => Ok(Location::Reserved0),
            0x0B => Ok(Location::DataLengthCode),
            0x0A => Ok(Location::DataSection),
            0x08 => Ok(Location::CrcSequence),
            0x18 => Ok(Location::CrcDelimiter),
            0x19 => Ok(Location::AckSlot),
            0x1B => Ok(Location::AckDelimiter),
            0x1A => Ok(Location::EndOfFrame),
            0x12 => Ok(Location::Intermission),
            _ => Err(CanErrorDecodingFailure::InvalidLocation),
        }
    }
}

impl vstd::std_specs::convert::TryFromSpecImpl<u8> for Location {
    open spec fn obeys_try_from_spec() -> bool {
        true
    }

    open spec fn try_from_spec(v: u8) -> Result<Self, Self::Error> {
        location_of(v)
    }
}

/// Every byte decodes: to a location exactly when it is one of the twenty
/// codes of the table, and to `InvalidLocation` otherwise.
pub proof fn lemma_location_total(val: u8)
    ensures
        location_of(val) is Ok <==> (val == 0x00 || val == 0x03 || val == 0x02 || val == 0x06
            || val == 0x04 || val == 0x05 || val == 0x07 || val == 0x0F
            || val == 0x0E || val == 0x0C || val == 0x0D || val == 0x09
            || val == 0x0B || val == 0x0A || val == 0x08 || val == 0x18
            || val == 0x19 || val == 0x1B || val == 0x1A || val == 0x12),
        location_of(val) is Err ==> location_of(val)
            == Err::<Location, _>(CanErrorDecodingFailure::InvalidLocation),
{
}

} // verus!
