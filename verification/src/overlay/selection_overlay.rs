//! The drag selection: a state machine that turns pointer-down, pointer-move
//! and pointer-up into the rectangle to capture, once for every gesture.

use crate::geometry::BoundsKey;
use crate::geometry::CaptureBounds;
use crate::geometry::GeometryError;
use crate::geometry::spec_normalize;
use vstd::prelude::*;
use vstd::string::StringExecFns;

verus! {

/// Smallest width and height, in pixels, of a selection that is not taken
/// for a slip of the hand.
pub const MIN_SELECTION_SIZE: u32 = 5;

/// Where the pointer is, in whole pixels.
#[derive(Clone, Copy, Debug, PartialEq, Eq, Structural)]
pub struct MousePosition {
    pub x: i32,
    pub y: i32,
}

/// Where a selection stands. `Completed` and `Cancelled` are passed through
/// when a drag ends; a session at rest is `Idle` or `Dragging`.
#[derive(Clone, Copy, Debug, PartialEq, Eq, Structural)]
pub enum SelectionPhase {
    Idle,
    Dragging,
    Completed,
    Cancelled,
}

/// What a selection session holds.
#[derive(Clone, Copy, Debug, PartialEq, Eq, Structural)]
pub struct SelectionState {
    /// Where the selection stands.
    pub phase: SelectionPhase,
    /// Where the drag began.
    pub start_pos: Option<MousePosition>,
    /// Where the pointer was seen last during the drag.
    pub current_pos: Option<MousePosition>,
    /// The rectangle between the two.
    pub selection_bounds: Option<CaptureBounds>,
}

/// Why a step of the selection was refused.
#[derive(Clone, Copy, Debug, PartialEq, Eq, Structural)]
pub enum SelectionError {
    /// A drag was begun while another was under way.
    InvalidTransition,
    /// The rectangle selected is too small once clamped to the screen.
    InvalidBounds(GeometryError),
}

impl SelectionError {
    /// The text that the error is reported with.
    pub open spec fn spec_message(self) -> Seq<char> {
        match self {
            SelectionError::InvalidTransition => "A selection is already under way"@,
            SelectionError::InvalidBounds(e) => e.spec_message(),
        }
    }

    /// The text that the error is reported with.
    pub fn message(&self) -> (text: String)
        ensures
            text@ == self.spec_message(),
    {
        match self {
            SelectionError::InvalidTransition => String::from_str(
                "A selection is already under way",
            ),
            SelectionError::InvalidBounds(e) => e.message(),
        }
    }
}

/// What a finished selection gave.
#[derive(Debug, PartialEq, Eq)]
pub struct SelectionResult {
    /// The rectangle that was selected.
    pub bounds: CaptureBounds,
    /// The image of it, as the text of its `data:` URL; empty where none was
    /// captured.
    pub image_data: String,
    /// Whether the selection was given up.
    pub cancelled: bool,
}

/// A finished selection as contracts speak of it.
pub struct SelectionResultView {
    pub bounds: CaptureBounds,
    pub image_data: Seq<char>,
    pub cancelled: bool,
}

impl View for SelectionResult {
    type V = SelectionResultView;

    open spec fn view(&self) -> SelectionResultView {
        SelectionResultView {
            bounds: self.bounds,
            image_data: self.image_data@,
            cancelled: self.cancelled,
        }
    }
}

impl SelectionResult {
    /// The result of a selection of `bounds` that gave `image_data`.
    pub fn captured(bounds: CaptureBounds, image_data: String) -> (r: Self)
        ensures
            r.bounds == bounds,
            r.image_data == image_data,
            !r.cancelled,
    {
        SelectionResult { bounds, image_data, cancelled: false }
    }

    /// The result of a selection of `bounds` that was given up: there is no
    /// image.
    pub fn cancelled(bounds: CaptureBounds) -> (r: Self)
        ensures
            r@ == (SelectionResultView {
                bounds,
                image_data: Seq::<char>::empty(),
                cancelled: true,
            }),
    {
        SelectionResult { bounds, image_data: String::new(), cancelled: true }
    }
}

/// The smaller of two coordinates.
pub open spec fn lesser(a: int, b: int) -> int {
    if a <= b {
        a
    } else {
        b
    }
}

/// The distance between two coordinates.
pub open spec fn distance(a: int, b: int) -> int {
    if a <= b {
        b - a
    } else {
        a - b
    }
}

/// The rectangle that a drag from `start` to `end` spans.
pub open spec fn spec_calculate_bounds(start: MousePosition, end: MousePosition) -> CaptureBounds {
    CaptureBounds {
        x: lesser(start.x as int, end.x as int) as i32,
        y: lesser(start.y as int, end.y as int) as i32,
        width: distance(start.x as int, end.x as int) as u32,
        height: distance(start.y as int, end.y as int) as u32,
    }
}

/// Whether a rectangle is too small to be meant as a selection.
pub open spec fn slip(b: CaptureBounds) -> bool {
    b.width < MIN_SELECTION_SIZE || b.height < MIN_SELECTION_SIZE
}

/// A session at rest with no drag under way.
pub open spec fn idle_state() -> SelectionState {
    SelectionState {
        phase: SelectionPhase::Idle,
        start_pos: None,
        current_pos: None,
        selection_bounds: None,
    }
}

/// What holds of every session at rest: it is idle and holds nothing, or a
/// drag is under way, and then the rectangle is the one between where the
/// drag began and where the pointer was seen last, if it was seen at all.
pub open spec fn state_wf(s: SelectionState) -> bool {
    match s.phase {
        SelectionPhase::Idle => s == idle_state(),
        SelectionPhase::Dragging => {
            &&& s.start_pos is Some
            &&& match s.current_pos {
                Some(pos) => s.selection_bounds == Some(
                    spec_calculate_bounds(s.start_pos->0, pos),
                ),
                None => s.selection_bounds is None,
            }
        },
        _ => false,
    }
}

/// The session after a drag has begun at `pos`.
pub open spec fn drag_begun(pos: MousePosition) -> SelectionState {
    SelectionState {
        phase: SelectionPhase::Dragging,
        start_pos: Some(pos),
        current_pos: None,
        selection_bounds: None,
    }
}

/// The session after the pointer has been seen at `pos`: during a drag the
/// rectangle follows it, at other times nothing changes.
pub open spec fn pointer_moved(s: SelectionState, pos: MousePosition) -> SelectionState {
    if s.phase == SelectionPhase::Dragging {
        SelectionState {
            current_pos: Some(pos),
            selection_bounds: Some(spec_calculate_bounds(s.start_pos->0, pos)),
            ..s
        }
    } else {
        s
    }
}

/// What the end of a drag gives on a screen of the given size: nothing
/// where no drag was under way, where the pointer never moved, or where the
/// rectangle is a slip; else the rectangle normalized, or the reason for
/// which it is refused.
pub open spec fn drag_outcome(s: SelectionState, screen_width: u32, screen_height: u32) -> Result<
    Option<CaptureBounds>,
    SelectionError,
> {
    if s.phase != SelectionPhase::Dragging {
        Ok(None)
    } else {
        match s.selection_bounds {
            None => Ok(None),
            Some(b) => if slip(b) {
                Ok(None)
            } else {
                match spec_normalize(b, screen_width, screen_height) {
                    Ok(key) => Ok(Some(key)),
                    Err(e) => Err(SelectionError::InvalidBounds(e)),
                }
            },
        }
    }
}

/// The phase that the end of a drag passes through before the session is
/// idle again: `Completed` where it gives a rectangle, else `Cancelled`.
pub open spec fn drag_verdict(s: SelectionState, screen_width: u32, screen_height: u32) -> SelectionPhase {
    match drag_outcome(s, screen_width, screen_height) {
        Ok(Some(_)) => SelectionPhase::Completed,
        _ => SelectionPhase::Cancelled,
    }
}

/// What the end of a drag gave, as contracts speak of it.
pub open spec fn outcome_view(r: Result<Option<BoundsKey>, SelectionError>) -> Result<
    Option<CaptureBounds>,
    SelectionError,
> {
    match r {
        Ok(Some(key)) => Ok(Some(key@)),
        Ok(None) => Ok(None),
        Err(e) => Err(e),
    }
}

/// The selection session.
pub struct SelectionOverlay {
    state: SelectionState,
}

impl View for SelectionOverlay {
    type V = SelectionState;

    closed spec fn view(&self) -> SelectionState {
        self.state
    }
}

impl SelectionOverlay {
    /// The session's invariant.
    pub open spec fn wf(&self) -> bool {
        state_wf(self@)
    }

    /// An idle session.
    pub fn new() -> (session: Self)
        ensures
            session.wf(),
            session@ == idle_state(),
    {
        SelectionOverlay {
            state: SelectionState {
                phase: SelectionPhase::Idle,
                start_pos: None,
                current_pos: None,
                selection_bounds: None,
            },
        }
    }

    /// The rectangle that a drag from `start` to `end` spans.
    pub fn calculate_bounds(start: &MousePosition, end: &MousePosition) -> (b: CaptureBounds)
        ensures
            b == spec_calculate_bounds(*start, *end),
    {
        let x = if start.x <= end.x {
            start.x
        } else {
            end.x
        };
        let y = if start.y <= end.y {
            start.y
        } else {
            end.y
        };
        let dx: i64 = if start.x <= end.x {
            end.x as i64 - start.x as i64
        } else {
            start.x as i64 - end.x as i64
        };
        let dy: i64 = if start.y <= end.y {
            end.y as i64 - start.y as i64
        } else {
            start.y as i64 - end.y as i64
        };
        CaptureBounds { x, y, width: dx as u32, height: dy as u32 }
    }

    /// The rectangle that stands in for a selection where none can be made:
    /// the middle of the screen, half as wide and half as high.
    pub fn placeholder_bounds(screen_width: u32, screen_height: u32) -> (b: CaptureBounds)
        ensures
            b.x == screen_width / 4,
            b.y == screen_height / 4,
            b.width == screen_width / 2,
            b.height == screen_height / 2,
    {
        CaptureBounds {
            x: (screen_width / 4) as i32,
            y: (screen_height / 4) as i32,
            width: screen_width / 2,
            height: screen_height / 2,
        }
    }

    /// Begins a drag at `pos`. While a drag is under way another cannot
    /// begin: the call is refused and changes nothing.
    pub fn start_drag(&mut self, pos: MousePosition) -> (r: Result<(), SelectionError>)
        requires
            old(self).wf(),
        ensures
            final(self).wf(),
            old(self)@.phase == SelectionPhase::Idle ==> r is Ok && final(self)@ == drag_begun(pos),
            old(self)@.phase != SelectionPhase::Idle ==> r == Err::<(), SelectionError>(
                SelectionError::InvalidTransition,
            ) && final(self)@ == old(self)@,
    {
        match self.state.phase {
            SelectionPhase::Idle => {
                self.state.phase = SelectionPhase::Dragging;
                self.state.start_pos = Some(pos);
                self.state.current_pos = None;
                self.state.selection_bounds = None;
                Ok(())
            },
            _ => Err(SelectionError::InvalidTransition),
        }
    }

    /// Takes note of where the pointer is. During a drag the rectangle
    /// follows it; at other times nothing changes.
    pub fn update_mouse_position(&mut self, pos: MousePosition)
        requires
            old(self).wf(),
        ensures
            final(self).wf(),
            final(self)@ == pointer_moved(old(self)@, pos),
    {
        match self.state.phase {
            SelectionPhase::Dragging => {
                match self.state.start_pos {
                    Some(start) => {
                        self.state.current_pos = Some(pos);
                        self.state.selection_bounds = Some(Self::calculate_bounds(&start, &pos));
                    },
                    None => {},
                }
            },
            _ => {},
        }
    }

    /// Decides what the drag under way gives, and moves the session on to
    /// `Completed` or `Cancelled`.
    fn conclude(&mut self, screen_width: u32, screen_height: u32) -> (r: Result<
        Option<BoundsKey>,
        SelectionError,
    >)
        requires
            old(self).wf(),
            old(self)@.phase == SelectionPhase::Dragging,
        ensures
            outcome_view(r) == drag_outcome(old(self)@, screen_width, screen_height),
            final(self)@ == (SelectionState {
                phase: drag_verdict(old(self)@, screen_width, screen_height),
                ..old(self)@
            }),
    {
        let r = match self.state.selection_bounds {
            None => Ok(None),
            Some(b) => {
                if b.width < MIN_SELECTION_SIZE || b.height < MIN_SELECTION_SIZE {
                    Ok(None)
                } else {
                    match BoundsKey::normalize(b, screen_width, screen_height) {
                        Ok(key) => Ok(Some(key)),
                        Err(e) => Err(SelectionError::InvalidBounds(e)),
                    }
                }
            },
        };
        self.state.phase = match &r {
            Ok(Some(_)) => SelectionPhase::Completed,
            _ => SelectionPhase::Cancelled,
        };
        r
    }

    /// Makes the session idle again and drops what it held.
    fn reset(&mut self)
        ensures
            final(self).wf(),
            final(self)@ == idle_state(),
    {
        self.state.phase = SelectionPhase::Idle;
        self.state.start_pos = None;
        self.state.current_pos = None;
        self.state.selection_bounds = None;
    }

    /// Ends the drag on a screen of the given size and hands out the
    /// rectangle to capture. A drag that never moved, or that spans less
    /// than `MIN_SELECTION_SIZE` pixels either way, is cancelled and gives
    /// nothing; any other is normalized against the screen. Whatever it
    /// gives, the session is idle afterwards. Where no drag is under way,
    /// nothing happens and nothing is given.
    pub fn end_drag(&mut self, screen_width: u32, screen_height: u32) -> (r: Result<
        Option<BoundsKey>,
        SelectionError,
    >)
        requires
            old(self).wf(),
        ensures
            final(self).wf(),
            final(self)@ == idle_state(),
            outcome_view(r) == drag_outcome(old(self)@, screen_width, screen_height),
    {
        match self.state.phase {
            SelectionPhase::Dragging => {
                let r = self.conclude(screen_width, screen_height);
                self.reset();
                r
            },
            _ => Ok(None),
        }
    }

    /// Gives up the selection: the session is idle afterwards, whatever it
    /// held.
    pub fn cancel_selection(&mut self)
        requires
            old(self).wf(),
        ensures
            final(self).wf(),
            final(self)@ == idle_state(),
    {
        self.reset();
    }

    /// What the session holds.
    pub fn get_state(&self) -> (state: SelectionState)
        ensures
            state == self@,
    {
        self.state
    }

    /// Whether a drag is under way.
    pub fn is_selecting(&self) -> (selecting: bool)
        ensures
            selecting == (self@.phase == SelectionPhase::Dragging),
    {
        match self.state.phase {
            SelectionPhase::Dragging => true,
            _ => false,
        }
    }
}

/// A gesture that spans less than `MIN_SELECTION_SIZE` pixels either way
/// gives nothing, on any screen.
pub proof fn lemma_slip_gives_nothing(
    start: MousePosition,
    end: MousePosition,
    screen_width: u32,
    screen_height: u32,
)
    requires
        slip(spec_calculate_bounds(start, end)),
    ensures
        drag_outcome(pointer_moved(drag_begun(start), end), screen_width, screen_height) == Ok::<
            Option<CaptureBounds>,
            SelectionError,
        >(None),
{
}

/// A gesture that spans a rectangle which lies on the screen and is large
/// enough to be captured gives that rectangle.
pub proof fn lemma_gesture_gives_its_rectangle(
    start: MousePosition,
    end: MousePosition,
    screen_width: u32,
    screen_height: u32,
)
    requires
        start.x >= 0 && end.x >= 0 && start.y >= 0 && end.y >= 0,
        start.x <= screen_width && end.x <= screen_width,
        start.y <= screen_height && end.y <= screen_height,
        crate::geometry::large_enough(spec_calculate_bounds(start, end)),
    ensures
        drag_outcome(pointer_moved(drag_begun(start), end), screen_width, screen_height) == Ok::<
            Option<CaptureBounds>,
            SelectionError,
        >(Some(spec_calculate_bounds(start, end))),
{
}

/// An idle session is safe to act on: ending a drag on it gives nothing,
/// and a move of the pointer leaves it idle.
pub proof fn lemma_idle_is_safe(pos: MousePosition, screen_width: u32, screen_height: u32)
    ensures
        state_wf(idle_state()),
        drag_outcome(idle_state(), screen_width, screen_height) == Ok::<
            Option<CaptureBounds>,
            SelectionError,
        >(None),
        pointer_moved(idle_state(), pos) == idle_state(),
{
}

impl Default for SelectionState {
    /// A session at rest with no drag under way.
    fn default() -> (state: Self)
        ensures
            state == idle_state(),
    {
        SelectionState {
            phase: SelectionPhase::Idle,
            start_pos: None,
            current_pos: None,
            selection_bounds: None,
        }
    }
}

impl Default for SelectionOverlay {
    /// An idle session.
    fn default() -> (session: Self)
        ensures
            session.wf(),
            session@ == idle_state(),
    {
        Self::new()
    }
}

} // verus!
