//! The error status of the CAN controller, from `data[1]` of an error frame.

use vstd::prelude::*;
use crate::failure::CanErrorDecodingFailure;

verus! {

/// Error status of the CAN controller.
#[derive(Copy, Clone, Debug, PartialEq, Eq, Structural)]
pub enum ControllerProblem {
    /// unspecified
    Unspecified,
    /// RX buffer overflow
    ReceiveBufferOverflow,
    /// TX buffer overflow
    TransmitBufferOverflow,
    /// reached warning level for RX errors
    ReceiveErrorWarning,
    /// reached warning level for TX errors
    TransmitErrorWarning,
    /// reached error passive status RX
    ReceiveErrorPassive,
    /// reached error passive status TX
    TransmitErrorPassive,
    /// recovered to error active state
    Active,
}

/// The controller problem that the byte `val` encodes, or the failure to
/// recognise it.
pub open spec fn controller_problem_of(val: u8) -> Result<ControllerProblem, CanErrorDecodingFailure> {
    match val {
        0x00 => Ok(ControllerProblem::Unspecified),
        0x01 => Ok(ControllerProblem::ReceiveBufferOverflow),
        0x02 => Ok(ControllerProblem::TransmitBufferOverflow),
        0x04 => Ok(ControllerProblem::ReceiveErrorWarning),
        0x08 => Ok(ControllerProblem::TransmitErrorWarning),
        0x10 => Ok(ControllerProblem::ReceiveErrorPassive),
        0x20 => Ok(ControllerProblem::TransmitErrorPassive),
        0x40 => Ok(ControllerProblem::Active),
        _ => Err(CanErrorDecodingFailure::InvalidControllerProblem),
    }
}

impl ControllerProblem {
    /// The human-readable description of the problem.
    pub open spec fn text(self) -> Seq<char> {
        match self {
            ControllerProblem::Unspecified => "unspecified controller problem"@,
            ControllerProblem::ReceiveBufferOverflow => "receive buffer overflow"@,
            ControllerProblem::TransmitBufferOverflow => "transmit buffer overflow"@,
            ControllerProblem::ReceiveErrorWarning => "ERROR WARNING (receive)"@,
            ControllerProblem::TransmitErrorWarning => "ERROR WARNING (transmit)"@,
            ControllerProblem::ReceiveErrorPassive => "ERROR PASSIVE (receive)"@,
            ControllerProblem::TransmitErrorPassive => "ERROR PASSIVE (transmit)"@,
            ControllerProblem::Active => "ERROR ACTIVE"@,
        }
    }

    /// Renders the problem as text.
    pub fn to_string(&self) -> (r: String)
        ensures
            r@ == self.text(),
    {
        let msg = match self {
            ControllerProblem::Unspecified => "unspecified controller problem",
            ControllerProblem::ReceiveBufferOverflow => "receive buffer overflow",
            ControllerProblem::TransmitBufferOverflow => "transmit buffer overflow",
            ControllerProblem::ReceiveErrorWarning => "ERROR WARNING (receive)",
            ControllerProblem::TransmitErrorWarning => "ERROR WARNING (transmit)",
            ControllerProblem::ReceiveErrorPassive => "ERROR PASSIVE (receive)",
            ControllerProblem::TransmitErrorPassive => "ERROR PASSIVE (transmit)",
            ControllerProblem::Active => "ERROR ACTIVE",
        };
        String::from_str(msg)
    }
}

impl TryFrom<u8> for ControllerProblem {
    type Error = CanErrorDecodingFailure;

    fn try_from(val: u8) -> (r: Result<Self, Self::Error>) {
        match val {
            0x00 => Ok(ControllerProblem::Unspecified),
            0x01 => Ok(ControllerProblem::ReceiveBufferOverflow),
            0x02 => Ok(ControllerProblem::TransmitBufferOverflow),
            0x04 => Ok(ControllerProblem::ReceiveErrorWarning),
            0x08 => Ok(ControllerProblem::TransmitErrorWarning),
            0x10 => Ok(ControllerProblem::ReceiveErrorPassive),
            0x20 => Ok(ControllerProblem::TransmitErrorPassive),
            0x40 => Ok(ControllerProblem::Active),
            _ => Err(CanErrorDecodingFailure::InvalidControllerProblem),
        }
    }
}

impl vstd::std_specs::convert::TryFromSpecImpl<u8> for ControllerProblem {
    open spec fn obeys_try_from_spec() -> bool {
        true
    }

    open spec fn try_from_spec(v: u8) -> Result<Self, Self::Error> {
        controller_problem_of(v)
    }
}

/// Every byte decodes: to a controller problem exactly when it is one of the
/// eight defined codes, and to `InvalidControllerProblem` otherwise.
pub proof fn lemma_controller_problem_total(val: u8)
    ensures
        controller_problem_of(val) is Ok <==> (val == 0x00 || val == 0x01 || val == 0x02
            || val == 0x04 || val == 0x08 || val == 0x10 || val == 0x20 || val == 0x40),
        controller_problem_of(val) is Err ==> controller_problem_of(val)
            == Err::<ControllerProblem, _>(CanErrorDecodingFailure::InvalidControllerProblem),
{
}

} // verus!
