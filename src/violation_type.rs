//! The type of a protocol violation, from `data[2]` of an error frame.

use vstd::prelude::*;
use crate::failure::CanErrorDecodingFailure;

verus! {

/// The type of protocol violation error.
#[derive(Copy, Clone, Debug, PartialEq, Eq, Structural)]
pub enum ViolationType {
    /// Unspecified violation
    Unspecified,
    /// Single bit error
    SingleBitError,
    /// Frame formatting error
    FrameFormatError,
    /// Bit stuffing error
    BitStuffingError,
    /// A dominant bit was sent, but not received
    UnableToSendDominantBit,
    /// A recessive bit was sent, but not received
    UnableToSendRecessiveBit,
    /// Bus overloaded
    BusOverload,
    /// Bus is active (again)
    Active,
    /// Transmission error
    TransmissionError,
}

/// The violation type that the byte `val` encodes, or the failure to recognise it.
pub open spec fn violation_type_of(val: u8) -> Result<ViolationType, CanErrorDecodingFailure> {
    match val {
        0x00 => Ok(ViolationType::Unspecified),
        0x01 => Ok(ViolationType::SingleBitError),
        0x02 => Ok(ViolationType::FrameFormatError),
        0x04 => Ok(ViolationType::BitStuffingError),
        0x08 => Ok(ViolationType::UnableToSendDominantBit),
        0x10 => Ok(ViolationType::UnableToSendRecessiveBit),
        0x20 => Ok(ViolationType::BusOverload),
        0x40 => Ok(ViolationType::Active),
        0x80 => Ok(ViolationType::TransmissionError),
        _ => Err(CanErrorDecodingFailure::InvalidViolationType),
    }
}

impl ViolationType {
    /// The human-readable description of the violation type.
    pub open spec fn text(self) -> Seq<char> {
        match self {
            ViolationType::Unspecified => "unspecified"@,
            ViolationType::SingleBitError => "single bit error"@,
            ViolationType::FrameFormatError => "frame format error"@,
            ViolationType::BitStuffingError => "bit stuffing error"@,
            ViolationType::UnableToSendDominantBit => "unable to send dominant bit"@,
            ViolationType::UnableToSendRecessiveBit => "unable to send recessive bit"@,
            ViolationType::BusOverload => "bus overload"@,
            ViolationType::Active => "active"@,
            ViolationType::TransmissionError => "transmission error"@,
        }
    }

    /// Renders the violation type as text.
    pub fn to_string(&self) -> (r: String)
        ensures
            r@ == self.text(),
    {
        let msg = match self {
            ViolationType::Unspecified => "unspecified",
            ViolationType::SingleBitError => "single bit error",
            ViolationType::FrameFormatError => "frame format error",
            ViolationType::BitStuffingError => "bit stuffing error",
            ViolationType::UnableToSendDominantBit => "unable to send dominant bit",
            ViolationType::UnableToSendRecessiveBit => "unable to send recessive bit",
            ViolationType::BusOverload => "bus overload",
            ViolationType::Active => "active",
            ViolationType::TransmissionError => "transmission error",
        };
        String::from_str(msg)
    }
}

impl TryFrom<u8> for ViolationType {
    type Error = CanErrorDecodingFailure;

    fn try_from(val: u8) -> (r: Result<Self, Self::Error>) {
        match val {
            0x00 => Ok(ViolationType::Unspecified),
            0x01 => Ok(ViolationType::SingleBitError),
            0x02 => Ok(ViolationType::FrameFormatError),
            0x04 => Ok(ViolationType::BitStuffingError),
            0x08 => Ok(ViolationType::UnableToSendDominantBit),
            0x10 => Ok(ViolationType::UnableToSendRecessiveBit),
            0x20 => Ok(ViolationType::BusOverload),
            0x40 => Ok(ViolationType::Active),
            0x80 => Ok(ViolationType::TransmissionError),
            _ => Err(CanErrorDecodingFailure::InvalidViolationType),
        }
    }
}

impl vstd::std_specs::convert::TryFromSpecImpl<u8> for ViolationType {
    open spec fn obeys_try_from_spec() -> bool {
        true
    }

    open spec fn try_from_spec(v: u8) -> Result<Self, Self::Error> {
        violation_type_of(v)
    }
}

/// Every byte decodes: to a violation type exactly when it is one of the
/// nine defined codes, and to `InvalidViolationType` otherwise.
pub proof fn lemma_violation_type_total(val: u8)
    ensures
        violation_type_of(val) is Ok <==> (val == 0x00 || val == 0x01 || val == 0x02 || val == 0x04
            || val == 0x08 || val == 0x10 || val == 0x20 || val == 0x40
            || val == 0x80),
        violation_type_of(val) is Err ==> violation_type_of(val)
            == Err::<ViolationType, _>(CanErrorDecodingFailure::InvalidViolationType),
{
}

} // verus!
