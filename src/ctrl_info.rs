//! Controller-specific error information in the payload of an error frame.

use vstd::prelude::*;

verus! {

/// Get the controller specific error information.
pub trait ControllerSpecificErrorInformation {
    /// The payload of the frame.
    spec fn payload(&self) -> Seq<u8>;

    /// Get the controller specific error information: the bytes from
    /// `data[5]` on of a full 8-byte payload, and `None` for any other length.
    fn get_ctrl_err(&self) -> (r: Option<&[u8]>)
        ensures
            self.payload().len() == 8 ==> (r matches Some(info) && info@ == self.payload().subrange(
                5,
                8,
            )),
            self.payload().len() != 8 ==> r is None,
    ;
}

impl ControllerSpecificErrorInformation for [u8] {
    open spec fn payload(&self) -> Seq<u8> {
        self@
    }

    fn get_ctrl_err(&self) -> (r: Option<&[u8]>) {
        if self.len() == 8 {
            Some(vstd::slice::slice_subrange(self, 5, 8))
        } else {
            None
        }
    }
}

} // verus!
