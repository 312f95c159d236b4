//! Protocol core for driving a video scaler over a serial line.
//!
//! The library holds the three pure pieces of the driver: decoding one
//! line of device output into a typed response, advancing the session
//! state machine on each response, and emitting the next command bytes
//! for the current configuration step.  All I/O stays with the caller.

pub mod digits;
pub mod emitter;
pub mod protocol;
pub mod response;
pub mod utf8check;
pub mod validate;

pub use emitter::process_state;
pub use protocol::{update_state, CommandFlow, Resolution, State};
pub use response::{decode_response, ExtronResponse};
pub use validate::{valid_baud, valid_resolution};
