use device_query::DeviceQuery;
use vstd::prelude::*;

use crate::position::{position_from_reading, position_of, CursorPosition, QueryError};

verus! {

/// A handle on the host's input-device state (an X display connection on
/// Linux). Opaque here: it is only carried from opening to reading.
#[verifier::external_type_specification]
#[verifier::external_body]
pub struct ExDeviceState(device_query::DeviceState);

/// Relies on `device_query::DeviceState::checked_new`: it opens a handle on
/// the input subsystem and returns `None`, without panicking, when that
/// fails. Which of the two comes back depends on the host, so nothing more
/// is stated.
pub assume_specification[ device_query::DeviceState::checked_new ]() -> Option<device_query::DeviceState>;

/// Relies on `device_query::DeviceQuery::get_mouse` for `DeviceState`: one
/// query of the pointer, of which only the coordinates are kept. The
/// position is whatever the host reports at that instant.
#[verifier::external_body]
fn pointer_coords(device: &device_query::DeviceState) -> (i32, i32) {
    device.get_mouse().coords
}

/// Reads the pointer's coordinates once, opening a fresh handle for the
/// read; `None` when the input subsystem cannot be reached.
pub fn read_pointer() -> Option<(i32, i32)> {
    match device_query::DeviceState::checked_new() {
        Some(device) => Some(pointer_coords(&device)),
        None => None,
    }
}

/// Queries the current position of the mouse pointer.
///
/// The result is the verified mapping `position_from_reading` applied to one
/// fresh reading of the host's pointer state: the reported coordinates
/// exactly, or `QueryError::Unavailable` when no reading could be made.
pub fn cursor_position() -> (r: Result<CursorPosition, QueryError>)
    ensures
        exists|reading: Option<(i32, i32)>| r == position_of(reading),
{
    let reading = read_pointer();
    position_from_reading(reading)
}

} // verus!
