//! Query the screen position of the mouse pointer.
//!
//! `position` holds the value types and the verified mapping from a raw
//! pointer reading to the result handed to callers; `device` obtains that
//! reading from the host's input subsystem.

mod device;
mod position;

pub use device::{cursor_position, read_pointer};
pub use position::{CursorPosition, QueryError, message_of, position_from_reading, position_of};
