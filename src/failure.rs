//! The failure to decode an error frame.

use vstd::prelude::*;

verus! {

/// Error decoding a `CanError` from an error frame.
#[derive(Copy, Clone, Debug, PartialEq, Eq, Structural)]
pub enum CanErrorDecodingFailure {
    /// The supplied frame did not have the error bit set.
    NotAnError,
    /// The error type is not known and cannot be decoded.
    UnknownErrorType(u32),
    /// The error type indicated a need for additional information as `data`,
    /// but the `data` field was not long enough.
    NotEnoughData(u8),
    /// The error type `ControllerProblem` was indicated and additional
    /// information found, but not recognized.
    InvalidControllerProblem,
    /// The type of the protocol violation was not valid.
    InvalidViolationType,
    /// A location was specified for a protocol violation, but the location
    /// was not valid.
    InvalidLocation,
    /// The supplied transceiver error was invalid.
    InvalidTransceiverError,
}

impl CanErrorDecodingFailure {
    /// The human-readable description of the failure.
    pub open spec fn text(self) -> Seq<char> {
        match self {
            CanErrorDecodingFailure::NotAnError => "CAN frame is not an error"@,
            CanErrorDecodingFailure::UnknownErrorType(_) => "unknown error type"@,
            CanErrorDecodingFailure::NotEnoughData(_) => "not enough data"@,
            CanErrorDecodingFailure::InvalidControllerProblem => "not a valid controller problem"@,
            CanErrorDecodingFailure::InvalidViolationType => "not a valid violation type"@,
            CanErrorDecodingFailure::InvalidLocation => "not a valid location"@,
            CanErrorDecodingFailure::InvalidTransceiverError => "not a valid transceiver error"@,
        }
    }

    /// Renders the failure as text.
    pub fn to_string(&self) -> (r: String)
        ensures
            r@ == self.text(),
    {
        match self {
            CanErrorDecodingFailure::NotAnError => String::from_str("CAN frame is not an error"),
            CanErrorDecodingFailure::UnknownErrorType(_) => String::from_str("unknown error type"),
            CanErrorDecodingFailure::NotEnoughData(_) => String::from_str("not enough data"),
            CanErrorDecodingFailure::InvalidControllerProblem => String::from_str(
                "not a valid controller problem",
            ),
            CanErrorDecodingFailure::InvalidViolationType => String::from_str(
                "not a valid violation type",
            ),
            CanErrorDecodingFailure::InvalidLocation => String::from_str("not a valid location"),
            CanErrorDecodingFailure::InvalidTransceiverError => String::from_str(
                "not a valid transceiver error",
            ),
        }
    }
}

} // verus!
