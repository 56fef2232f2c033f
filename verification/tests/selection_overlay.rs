use framesense::geometry::CaptureBounds;
use framesense::geometry::GeometryError;
use framesense::overlay::selection_overlay::MousePosition;
use framesense::overlay::selection_overlay::SelectionError;
use framesense::overlay::selection_overlay::SelectionOverlay;
use framesense::overlay::selection_overlay::SelectionPhase;
use framesense::overlay::selection_overlay::SelectionResult;
use framesense::overlay::selection_overlay::SelectionState;
use framesense::overlay::selection_overlay::MIN_SELECTION_SIZE;

const SW: u32 = 1920;
const SH: u32 = 1080;

fn at(x: i32, y: i32) -> MousePosition {
    MousePosition { x, y }
}

fn rect(x: i32, y: i32, width: u32, height: u32) -> CaptureBounds {
    CaptureBounds { x, y, width, height }
}

fn idle() -> SelectionState {
    SelectionState {
        phase: SelectionPhase::Idle,
        start_pos: None,
        current_pos: None,
        selection_bounds: None,
    }
}

#[test]
fn new_session_is_idle() {
    let session = SelectionOverlay::new();
    assert_eq!(session.get_state(), idle());
    assert!(!session.is_selecting());
}

#[test]
fn a_gesture_below_the_minimum_gives_nothing() {
    let mut session = SelectionOverlay::new();
    assert_eq!(session.start_drag(at(0, 0)), Ok(()));
    session.update_mouse_position(at(2, 2));
    assert_eq!(session.end_drag(SW, SH), Ok(None));
    assert_eq!(session.get_state(), idle());
    assert!(!session.is_selecting());
}

#[test]
fn a_gesture_gives_its_rectangle() {
    let mut session = SelectionOverlay::new();
    assert_eq!(session.start_drag(at(0, 0)), Ok(()));
    session.update_mouse_position(at(100, 50));
    let key = session.end_drag(SW, SH).unwrap().unwrap();
    assert_eq!(key.bounds(), rect(0, 0, 100, 50));
    assert_eq!(session.get_state(), idle());
}

#[test]
fn a_gesture_may_run_up_and_to_the_left() {
    let mut session = SelectionOverlay::new();
    session.start_drag(at(300, 200)).unwrap();
    session.update_mouse_position(at(100, 50));
    assert_eq!(session.get_state().selection_bounds, Some(rect(100, 50, 200, 150)));
    let key = session.end_drag(SW, SH).unwrap().unwrap();
    assert_eq!(key.bounds(), rect(100, 50, 200, 150));
}

#[test]
fn the_rectangle_follows_the_pointer() {
    let mut session = SelectionOverlay::new();
    session.start_drag(at(10, 10)).unwrap();
    assert_eq!(
        session.get_state(),
        SelectionState {
            phase: SelectionPhase::Dragging,
            start_pos: Some(at(10, 10)),
            current_pos: None,
            selection_bounds: None,
        }
    );
    assert!(session.is_selecting());
    session.update_mouse_position(at(20, 40));
    session.update_mouse_position(at(60, 5));
    assert_eq!(
        session.get_state(),
        SelectionState {
            phase: SelectionPhase::Dragging,
            start_pos: Some(at(10, 10)),
            current_pos: Some(at(60, 5)),
            selection_bounds: Some(rect(10, 5, 50, 5)),
        }
    );
}

#[test]
fn calculate_bounds_spans_the_two_corners() {
    assert_eq!(SelectionOverlay::calculate_bounds(&at(0, 0), &at(100, 50)), rect(0, 0, 100, 50));
    assert_eq!(SelectionOverlay::calculate_bounds(&at(100, 50), &at(0, 0)), rect(0, 0, 100, 50));
    assert_eq!(SelectionOverlay::calculate_bounds(&at(-5, 7), &at(5, -7)), rect(-5, -7, 10, 14));
    assert_eq!(SelectionOverlay::calculate_bounds(&at(3, 3), &at(3, 3)), rect(3, 3, 0, 0));
    assert_eq!(
        SelectionOverlay::calculate_bounds(&at(i32::MIN, i32::MAX), &at(i32::MAX, i32::MIN)),
        rect(i32::MIN, i32::MIN, u32::MAX, u32::MAX)
    );
}

#[test]
fn the_minimum_is_five_pixels_either_way() {
    assert_eq!(MIN_SELECTION_SIZE, 5);
    for (end, given) in [(at(4, 100), false), (at(100, 4), false), (at(5, 100), false), (at(10, 10), true)] {
        let mut session = SelectionOverlay::new();
        session.start_drag(at(0, 0)).unwrap();
        session.update_mouse_position(end);
        let r = session.end_drag(SW, SH);
        if given {
            assert!(matches!(r, Ok(Some(_))));
        } else if end.x >= 5 && end.y >= 5 {
            assert!(matches!(r, Err(SelectionError::InvalidBounds(_))));
        } else {
            assert_eq!(r, Ok(None));
        }
        assert_eq!(session.get_state(), idle());
    }
}

#[test]
fn a_selection_between_the_two_minimums_is_refused() {
    // 7 x 7 is no slip, but too small to capture
    let mut session = SelectionOverlay::new();
    session.start_drag(at(0, 0)).unwrap();
    session.update_mouse_position(at(7, 7));
    assert_eq!(
        session.end_drag(SW, SH),
        Err(SelectionError::InvalidBounds(GeometryError::TooSmall { width: 7, height: 7 }))
    );
    assert_eq!(session.get_state(), idle());
}

#[test]
fn the_rectangle_is_normalized_against_the_screen() {
    let mut session = SelectionOverlay::new();
    session.start_drag(at(-20, -20)).unwrap();
    session.update_mouse_position(at(100, 100));
    let key = session.end_drag(800, 600).unwrap().unwrap();
    assert_eq!(key.bounds(), rect(0, 0, 120, 120));
    session.start_drag(at(700, 500)).unwrap();
    session.update_mouse_position(at(900, 700));
    let key = session.end_drag(800, 600).unwrap().unwrap();
    assert_eq!(key.bounds(), rect(600, 400, 200, 200));
}

#[test]
fn a_drag_cannot_begin_during_a_drag() {
    let mut session = SelectionOverlay::new();
    session.start_drag(at(1, 1)).unwrap();
    session.update_mouse_position(at(50, 50));
    let before = session.get_state();
    assert_eq!(session.start_drag(at(9, 9)), Err(SelectionError::InvalidTransition));
    assert_eq!(session.get_state(), before);
}

#[test]
fn a_move_outside_a_drag_changes_nothing() {
    let mut session = SelectionOverlay::new();
    session.update_mouse_position(at(50, 50));
    assert_eq!(session.get_state(), idle());
}

#[test]
fn a_drag_that_never_moved_gives_nothing() {
    let mut session = SelectionOverlay::new();
    session.start_drag(at(1, 1)).unwrap();
    assert_eq!(session.end_drag(SW, SH), Ok(None));
    assert_eq!(session.get_state(), idle());
}

#[test]
fn ending_a_drag_that_is_not_under_way_gives_nothing() {
    let mut session = SelectionOverlay::new();
    assert_eq!(session.end_drag(SW, SH), Ok(None));
    assert_eq!(session.end_drag(SW, SH), Ok(None));
    assert_eq!(session.get_state(), idle());
}

#[test]
fn cancel_makes_the_session_idle_from_anywhere() {
    let mut session = SelectionOverlay::new();
    session.cancel_selection();
    assert_eq!(session.get_state(), idle());
    session.start_drag(at(1, 1)).unwrap();
    session.update_mouse_position(at(500, 500));
    session.cancel_selection();
    assert_eq!(session.get_state(), idle());
    session.cancel_selection();
    assert_eq!(session.get_state(), idle());
    assert_eq!(session.end_drag(SW, SH), Ok(None));
}

#[test]
fn the_session_is_used_again_after_each_gesture() {
    let mut session = SelectionOverlay::new();
    for i in 0..3 {
        session.start_drag(at(i, i)).unwrap();
        session.update_mouse_position(at(i + 40, i + 30));
        let key = session.end_drag(SW, SH).unwrap().unwrap();
        assert_eq!(key.bounds(), rect(i, i, 40, 30));
    }
}

#[test]
fn placeholder_is_the_middle_of_the_screen() {
    assert_eq!(SelectionOverlay::placeholder_bounds(1920, 1080), rect(480, 270, 960, 540));
    assert_eq!(SelectionOverlay::placeholder_bounds(0, 0), rect(0, 0, 0, 0));
    assert_eq!(
        SelectionOverlay::placeholder_bounds(u32::MAX, 7),
        rect(1_073_741_823, 1, 2_147_483_647, 3)
    );
}

#[test]
fn selection_results_are_built_as_captured_or_cancelled() {
    let b = rect(1, 2, 30, 40);
    assert_eq!(
        SelectionResult::captured(b, "data".to_string()),
        SelectionResult { bounds: b, image_data: "data".to_string(), cancelled: false }
    );
    assert_eq!(
        SelectionResult::cancelled(b),
        SelectionResult { bounds: b, image_data: String::new(), cancelled: true }
    );
}

#[test]
fn selection_errors_are_reported_in_words() {
    assert_eq!(SelectionError::InvalidTransition.message(), "A selection is already under way");
    assert_eq!(
        SelectionError::InvalidBounds(GeometryError::TooSmall { width: 7, height: 8 }).message(),
        "Capture area too small after adjustment: 7x8"
    );
}
