//! The error status of the CAN transceiver, from `data[4]` of an error frame.

use vstd::prelude::*;
use crate::failure::CanErrorDecodingFailure;

verus! {

/// The error status of the CAN transceiver.
#[derive(Copy, Clone, Debug, PartialEq, Eq, Structural)]
pub enum TransceiverError {
    /// Unspecified
    Unspecified,
    /// CAN High, no wire
    CanHighNoWire,
    /// CAN High, short to BAT
    CanHighShortToBat,
    /// CAN High, short to VCC
    CanHighShortToVcc,
    /// CAN High, short to GND
    CanHighShortToGnd,
    /// CAN Low, no wire
    CanLowNoWire,
    /// CAN Low, short to BAT
    CanLowShortToBat,
    /// CAN Low, short to VCC
    CanLowShortToVcc,
    /// CAN Low, short to GND
    CanLowShortToGnd,
    /// CAN Low short to CAN High
    CanLowShortToCanHigh,
}

/// The transceiver status that the byte `val` encodes, or the failure to
/// recognise it.
pub open spec fn transceiver_error_of(val: u8) -> Result<TransceiverError, CanErrorDecodingFailure> {
    match val {
        0x00 => Ok(TransceiverError::Unspecified),
        0x04 => Ok(TransceiverError::CanHighNoWire),
        0x05 => Ok(TransceiverError::CanHighShortToBat),
        0x06 => Ok(TransceiverError::CanHighShortToVcc),
        0x07 => Ok(TransceiverError::CanHighShortToGnd),
        0x40 => Ok(TransceiverError::CanLowNoWire),
        0x50 => Ok(TransceiverError::CanLowShortToBat),
        0x60 => Ok(TransceiverError::CanLowShortToVcc),
        0x70 => Ok(TransceiverError::CanLowShortToGnd),
        0x80 => Ok(TransceiverError::CanLowShortToCanHigh),
        _ => Err(CanErrorDecodingFailure::InvalidTransceiverError),
    }
}

impl TryFrom<u8> for TransceiverError {
    type Error = CanErrorDecodingFailure;

    fn try_from(val: u8) -> (r: Result<Self, Self::Error>) {
        match val {
            0x00 => Ok(TransceiverError::Unspecified),
            0x04 => Ok(TransceiverError::CanHighNoWire),
            0x05 => Ok(TransceiverError::CanHighShortToBat),
            0x06 => Ok(TransceiverError::CanHighShortToVcc),
            0x07 => Ok(TransceiverError::CanHighShortToGnd),
            0x40 => Ok(TransceiverError::CanLowNoWire),
            0x50 => Ok(TransceiverError::CanLowShortToBat),
            0x60 => Ok(TransceiverError::CanLowShortToVcc),
            0x70 => Ok(TransceiverError::CanLowShortToGnd),
            0x80 => Ok(TransceiverError::CanLowShortToCanHigh),
            _ => Err(CanErrorDecodingFailure::InvalidTransceiverError),
        }
    }
}

impl vstd::std_specs::convert::TryFromSpecImpl<u8> for TransceiverError {
    open spec fn obeys_try_from_spec() -> bool {
        true
    }

    open spec fn try_from_spec(v: u8) -> Result<Self, Self::Error> {
        transceiver_error_of(v)
    }
}

/// Every byte decodes: to a transceiver status exactly when it is one of the
/// ten defined codes, and to `InvalidTransceiverError` otherwise.
pub proof fn lemma_transceiver_error_total(val: u8)
    ensures
        transceiver_error_of(val) is Ok <==> (val == 0x00 || val == 0x04 || val == 0x05 || val == 0x06
            || val == 0x07 || val == 0x40 || val == 0x50 || val == 0x60
            || val == 0x70 || val == 0x80),
        transceiver_error_of(val) is Err ==> transceiver_error_of(val)
            == Err::<TransceiverError, _>(CanErrorDecodingFailure::InvalidTransceiverError),
{
}

} // verus!
