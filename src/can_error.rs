//! The CAN bus error that an error frame reports, and its decoding.

use vstd::prelude::*;
use embedded_can::ErrorKind;
use crate::controller::{controller_problem_of, ControllerProblem};
use crate::decimal::{decimal, decimal_string};
use crate::failure::CanErrorDecodingFailure;
use crate::location::{location_of, Location};
use crate::violation_type::{violation_type_of, ViolationType};

verus! {

/// The generic CAN error kinds of `embedded_can`, whose variants the
/// contracts of this library name.
#[verifier::external_type_specification]
pub struct ExErrorKind(embedded_can::ErrorKind);

/// Error bits of the CAN ID of an error frame, one per kind of error.
pub const ERR_TX_TIMEOUT: u32 = 0x0001;
/// Lost arbitration; the bit position is in `data[0]`.
pub const ERR_LOST_ARBITRATION: u32 = 0x0002;
/// Controller problem; the code is in `data[1]`.
pub const ERR_CONTROLLER: u32 = 0x0004;
/// Protocol violation; type and location are in `data[2]` and `data[3]`.
pub const ERR_PROTOCOL: u32 = 0x0008;
/// Transceiver status; the code is in `data[4]`.
pub const ERR_TRANSCEIVER: u32 = 0x0010;
/// No acknowledge received.
pub const ERR_NO_ACK: u32 = 0x0020;
/// Bus off.
pub const ERR_BUS_OFF: u32 = 0x0040;
/// Bus error.
pub const ERR_BUS_ERROR: u32 = 0x0080;
/// Controller restarted.
pub const ERR_RESTARTED: u32 = 0x0100;

/// A CAN bus error derived from an error frame.
///
/// Most variants correspond to one bit of the error mask in the CAN ID of an
/// error frame. The others report problems decoding the frame.
#[derive(Copy, Clone, Debug, PartialEq, Eq, Structural)]
pub enum CanError {
    /// TX timeout (by netdevice driver)
    TransmitTimeout,
    /// Arbitration was lost.
    /// Contains the bit number after which arbitration was lost or 0 if unspecified.
    LostArbitration(u8),
    /// Controller problem
    ControllerProblem(ControllerProblem),
    /// Protocol violation at the specified [`Location`].
    ProtocolViolation {
        /// The type of protocol violation
        vtype: ViolationType,
        /// The location (field or bit) of the violation
        location: Location,
    },
    /// Transceiver Error.
    TransceiverError,
    /// No ACK received for current CAN frame.
    NoAck,
    /// Bus off (due to too many detected errors)
    BusOff,
    /// Bus error (due to too many detected errors)
    BusError,
    /// The bus has been restarted
    Restarted,
    /// There was an error decoding the error frame
    DecodingFailure(CanErrorDecodingFailure),
    /// Unknown, possibly invalid, error
    Unknown(u32),
}

/// The error that an error frame with error bits `bits` and payload `data`
/// reports.
///
/// The bits are compared for equality with each single error bit: a mask
/// with several bits set is `Unknown`. A protocol violation reports the
/// failure of its type byte before that of its location byte.
pub open spec fn can_error_of(bits: u32, data: Seq<u8>) -> CanError {
    if bits == ERR_TX_TIMEOUT {
        CanError::TransmitTimeout
    } else if bits == ERR_LOST_ARBITRATION {
        CanError::LostArbitration(data[0])
    } else if bits == ERR_CONTROLLER {
        match controller_problem_of(data[1]) {
            Ok(cp) => CanError::ControllerProblem(cp),
            Err(f) => CanError::DecodingFailure(f),
        }
    } else if bits == ERR_PROTOCOL {
        match (violation_type_of(data[2]), location_of(data[3])) {
            (Ok(vtype), Ok(location)) => CanError::ProtocolViolation { vtype, location },
            (Err(f), _) => CanError::DecodingFailure(f),
            (_, Err(f)) => CanError::DecodingFailure(f),
        }
    } else if bits == ERR_TRANSCEIVER {
        CanError::TransceiverError
    } else if bits == ERR_NO_ACK {
        CanError::NoAck
    } else if bits == ERR_BUS_OFF {
        CanError::BusOff
    } else if bits == ERR_BUS_ERROR {
        CanError::BusError
    } else if bits == ERR_RESTARTED {
        CanError::Restarted
    } else {
        CanError::Unknown(bits)
    }
}

/// The generic kind of a CAN error: buffer overflows are overruns, a missing
/// acknowledge is an acknowledge error, and everything else is other.
pub open spec fn can_error_kind(e: CanError) -> ErrorKind {
    match e {
        CanError::ControllerProblem(ControllerProblem::ReceiveBufferOverflow) => ErrorKind::Overrun,
        CanError::ControllerProblem(ControllerProblem::TransmitBufferOverflow) => ErrorKind::Overrun,
        CanError::NoAck => ErrorKind::Acknowledge,
        _ => ErrorKind::Other,
    }
}

impl CanError {
    /// Decodes the error that an error frame reports, from the error bits of
    /// its CAN ID and its 8-byte payload.
    pub fn from_error_frame(error_bits: u32, data: &[u8]) -> (r: CanError)
        requires
            data@.len() == 8,
        ensures
            r == can_error_of(error_bits, data@),
    {
        if error_bits == ERR_TX_TIMEOUT {
            CanError::TransmitTimeout
        } else if error_bits == ERR_LOST_ARBITRATION {
            CanError::LostArbitration(data[0])
        } else if error_bits == ERR_CONTROLLER {
            match ControllerProblem::try_from(data[1]) {
                Ok(cp) => CanError::ControllerProblem(cp),
                Err(f) => CanError::DecodingFailure(f),
            }
        } else if error_bits == ERR_PROTOCOL {
            match (ViolationType::try_from(data[2]), Location::try_from(data[3])) {
                (Ok(vtype), Ok(location)) => CanError::ProtocolViolation { vtype, location },
                (Err(f), _) => CanError::DecodingFailure(f),
                (_, Err(f)) => CanError::DecodingFailure(f),
            }
        } else if error_bits == ERR_TRANSCEIVER {
            CanError::TransceiverError
        } else if error_bits == ERR_NO_ACK {
            CanError::NoAck
        } else if error_bits == ERR_BUS_OFF {
            CanError::BusOff
        } else if error_bits == ERR_BUS_ERROR {
            CanError::BusError
        } else if error_bits == ERR_RESTARTED {
            CanError::Restarted
        } else {
            CanError::Unknown(error_bits)
        }
    }

    /// The generic `embedded_can` kind of this error.
    pub fn kind(&self) -> (r: ErrorKind)
        ensures
            r == can_error_kind(*self),
    {
        match self {
            CanError::ControllerProblem(cp) => match cp {
                ControllerProblem::ReceiveBufferOverflow => ErrorKind::Overrun,
                ControllerProblem::TransmitBufferOverflow => ErrorKind::Overrun,
                _ => ErrorKind::Other,
            },
            CanError::NoAck => ErrorKind::Acknowledge,
            _ => ErrorKind::Other,
        }
    }

    /// The human-readable description of the error.
    pub open spec fn text(self) -> Seq<char> {
        match self {
            CanError::TransmitTimeout => "transmission timeout"@,
            CanError::LostArbitration(n) => "arbitration lost after "@ + decimal(n as nat)
                + " bits"@,
            CanError::ControllerProblem(cp) => "controller problem: "@ + cp.text(),
            CanError::ProtocolViolation { vtype, location } => "protocol violation at "@
                + location.text() + ": "@ + vtype.text(),
            CanError::TransceiverError => "transceiver error"@,
            CanError::NoAck => "no ack"@,
            CanError::BusOff => "bus off"@,
            CanError::BusError => "bus error"@,
            CanError::Restarted => "restarted"@,
            CanError::DecodingFailure(f) => "decoding failure: "@ + f.text(),
            CanError::Unknown(bits) => "unknown error ("@ + decimal(bits as nat) + ")"@,
        }
    }

    /// Renders the error as text.
    pub fn to_string(&self) -> (r: String)
        ensures
            r@ == self.text(),
    {
        match self {
            CanError::TransmitTimeout => String::from_str("transmission timeout"),
            CanError::LostArbitration(n) => {
                let mut s = String::from_str("arbitration lost after ");
                s.append(decimal_string(*n as u32).as_str());
                s.append(" bits");
                s
            },
            CanError::ControllerProblem(cp) => {
                let mut s = String::from_str("controller problem: ");
                s.append(cp.to_string().as_str());
                s
            },
            CanError::ProtocolViolation { vtype, location } => {
                let mut s = String::from_str("protocol violation at ");
                s.append(location.to_string().as_str());
                s.append(": ");
                s.append(vtype.to_string().as_str());
                s
            },
            CanError::TransceiverError => String::from_str("transceiver error"),
            CanError::NoAck => String::from_str("no ack"),
            CanError::BusOff => String::from_str("bus off"),
            CanError::BusError => String::from_str("bus error"),
            CanError::Restarted => String::from_str("restarted"),
            CanError::DecodingFailure(f) => {
                let mut s = String::from_str("decoding failure: ");
                s.append(f.to_string().as_str());
                s
            },
            CanError::Unknown(bits) => {
                let mut s = String::from_str("unknown error (");
                s.append(decimal_string(*bits).as_str());
                s.append(")");
                s
            },
        }
    }
}

} // verus!
