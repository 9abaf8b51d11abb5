//! Errors that occur when creating CAN frames.

use vstd::prelude::*;

verus! {

/// Error that occurs when creating CAN frames.
#[derive(Debug, Copy, Clone, PartialEq, Eq, Structural)]
pub enum ConstructionError {
    /// Trying to create a specific frame type from an incompatible type
    WrongFrameType,
    /// CAN ID was outside the range of valid IDs
    IDTooLarge,
    /// Larger payload reported than can be held in the frame.
    TooMuchData,
}

impl ConstructionError {
    /// The human-readable description of the error.
    pub open spec fn text(self) -> Seq<char> {
        match self {
            ConstructionError::WrongFrameType => "Incompatible frame type"@,
            ConstructionError::IDTooLarge => "CAN ID too large"@,
            ConstructionError::TooMuchData => "Payload is too large"@,
        }
    }

    /// Renders the error as text.
    pub fn to_string(&self) -> (r: String)
        ensures
            r@ == self.text(),
    {
        match self {
            ConstructionError::WrongFrameType => String::from_str("Incompatible frame type"),
            ConstructionError::IDTooLarge => String::from_str("CAN ID too large"),
            ConstructionError::TooMuchData => String::from_str("Payload is too large"),
        }
    }
}

/// Two construction errors are equal exactly when they are the same case.
pub proof fn lemma_construction_error_eq(a: ConstructionError, b: ConstructionError)
    ensures
        (a == b) <==> (a is WrongFrameType && b is WrongFrameType) || (a is IDTooLarge
            && b is IDTooLarge) || (a is TooMuchData && b is TooMuchData),
{
}

} // verus!
