use vstd::prelude::*;

verus! {

/// Screen-space coordinates of the mouse pointer, in pixels from the
/// origin that the host system defines (they may be negative or lie beyond
/// one display on multi-monitor setups).
#[derive(Debug, Clone, Copy, PartialEq, Eq, Structural)]
pub struct CursorPosition {
    pub x: i32,
    pub y: i32,
}

/// Why a pointer query failed.
#[derive(Debug, Clone, Copy, PartialEq, Eq, Structural)]
pub enum QueryError {
    /// The host's input subsystem could not be reached (no display, no
    /// permission, or an unsupported platform).
    Unavailable,
}

/// The diagnostic text that goes with each error.
pub open spec fn message_of(e: QueryError) -> Seq<char> {
    match e {
        QueryError::Unavailable => "cannot read the mouse pointer: the input subsystem is unavailable"@,
    }
}

impl QueryError {
    /// A human-readable description of the failure; never empty.
    pub fn message(&self) -> (r: String)
        ensures
            r@ == message_of(*self),
            r@.len() > 0,
    {
        proof {
            reveal_strlit("cannot read the mouse pointer: the input subsystem is unavailable");
        }
        match self {
            QueryError::Unavailable => "cannot read the mouse pointer: the input subsystem is unavailable".to_owned(),
        }
    }
}

/// What a query yields for a raw reading: the reading's coordinates as they
/// stand, or `Unavailable` when there was no reading.
pub open spec fn position_of(reading: Option<(i32, i32)>) -> Result<CursorPosition, QueryError> {
    match reading {
        Some((x, y)) => Ok(CursorPosition { x, y }),
        None => Err(QueryError::Unavailable),
    }
}

/// Turns a raw pointer reading into the query's result: the coordinates are
/// passed on exactly, and a missing reading becomes `Unavailable`.
pub fn position_from_reading(reading: Option<(i32, i32)>) -> (r: Result<CursorPosition, QueryError>)
    ensures
        r == position_of(reading),
{
    match reading {
        Some((x, y)) => Ok(CursorPosition { x, y }),
        None => Err(QueryError::Unavailable),
    }
}

/// Two readings that agree, as when the pointer has not moved between two
/// queries, give the same result.
pub proof fn lemma_unmoved_pointer_same_position(first: Option<(i32, i32)>, second: Option<(i32, i32)>)
    requires
        first == second,
    ensures
        position_of(first) == position_of(second),
{
}

/// When the pointer moves by `(dx, dy)` between two readings, the second
/// position is the first plus that offset.
pub proof fn lemma_moved_pointer_shifts_position(first: (i32, i32), second: (i32, i32), dx: int, dy: int)
    requires
        second.0 == first.0 + dx,
        second.1 == first.1 + dy,
    ensures
        position_of(Some(first)) is Ok,
        position_of(Some(second)) is Ok,
        position_of(Some(second))->Ok_0.x == position_of(Some(first))->Ok_0.x + dx,
        position_of(Some(second))->Ok_0.y == position_of(Some(first))->Ok_0.y + dy,
{
}

/// A reading that could not be made gives an error with a non-empty
/// message, never a position.
pub proof fn lemma_missing_reading_is_reported()
    ensures
        position_of(None) == Err::<CursorPosition, QueryError>(QueryError::Unavailable),
        message_of(QueryError::Unavailable).len() > 0,
{
    reveal_strlit("cannot read the mouse pointer: the input subsystem is unavailable");
}

} // verus!
