use cursor_query::{cursor_position, position_from_reading, CursorPosition, QueryError};

#[test]
fn reported_coordinates_come_back_exactly() {
    let r = position_from_reading(Some((123, 456)));
    assert_eq!(r, Ok(CursorPosition { x: 123, y: 456 }));
}

#[test]
fn unmoved_pointer_gives_identical_results() {
    let first = position_from_reading(Some((640, 480)));
    let second = position_from_reading(Some((640, 480)));
    assert_eq!(first, second);
    assert_eq!(first, Ok(CursorPosition { x: 640, y: 480 }));
}

#[test]
fn moved_pointer_shifts_by_the_delta() {
    let (dx, dy) = (-15, 7);
    let first = position_from_reading(Some((10, 20))).unwrap();
    let second = position_from_reading(Some((10 + dx, 20 + dy))).unwrap();
    assert_eq!(second.x, first.x + dx);
    assert_eq!(second.y, first.y + dy);
    assert_eq!(second, CursorPosition { x: -5, y: 27 });
}

#[test]
fn missing_reading_is_unavailable_with_a_message() {
    let r = position_from_reading(None);
    assert_eq!(r, Err(QueryError::Unavailable));
    let msg = QueryError::Unavailable.message();
    assert!(!msg.is_empty());
    assert_eq!(msg, "cannot read the mouse pointer: the input subsystem is unavailable");
}

#[test]
fn negative_and_extreme_coordinates_are_kept() {
    assert_eq!(position_from_reading(Some((-1920, -5))), Ok(CursorPosition { x: -1920, y: -5 }));
    assert_eq!(
        position_from_reading(Some((i32::MIN, i32::MAX))),
        Ok(CursorPosition { x: i32::MIN, y: i32::MAX })
    );
    assert_eq!(position_from_reading(Some((0, 0))), Ok(CursorPosition { x: 0, y: 0 }));
}

#[test]
fn live_query_gives_a_position_or_a_described_error() {
    match cursor_position() {
        Ok(_) => {}
        Err(e) => {
            assert_eq!(e, QueryError::Unavailable);
            assert!(!e.message().is_empty());
        }
    }
}
