//! CAN bus errors.
//!
//! The general kind of a CAN bus error is encoded in the error bits of the
//! CAN ID of an error frame; specific errors carry more detail in the data
//! bytes of that frame:
//!
//! ```text
//! Lost Arbitration   (0x02) => data[0]
//! Controller Problem (0x04) => data[1]
//! Protocol Violation (0x08) => data[2..3]
//! Transceiver Status (0x10) => data[4]
//!
//! Error Counters (0x200) =>
//!   TX Error Counter => data[6]
//!   RX Error Counter => data[7]
//! ```
//!
//! Every decoder here is total: each byte yields a defined value or an
//! explicit decoding failure, and never a panic.

pub mod failure;
pub mod controller;
pub mod violation_type;
pub mod location;
pub mod transceiver;
pub mod decimal;
pub mod can_error;
pub mod composite;
pub mod construction;
pub mod ctrl_info;

pub use can_error::CanError;
pub use composite::{CanSocketOpenError, Error, Result};
pub use construction::ConstructionError;
pub use controller::ControllerProblem;
pub use ctrl_info::ControllerSpecificErrorInformation;
pub use failure::CanErrorDecodingFailure;
pub use location::Location;
pub use transceiver::TransceiverError;
pub use violation_type::ViolationType;
