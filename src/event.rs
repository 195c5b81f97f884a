use vstd::prelude::*;
use crate::bitset::BitSet64;

verus! {

/// A mouse condition that can be queried during a frame.
#[derive(Clone, Copy, Debug, PartialEq, Eq, Structural)]
pub enum MouseState {
    IsDown,
    IsLeftClicked,
    IsRightClicked,
    IsDoubleClicked,
}

/// The bit a mouse condition is kept in.
pub open spec fn state_bit(state: MouseState) -> int {
    match state {
        MouseState::IsDown => 0,
        MouseState::IsLeftClicked => 1,
        MouseState::IsRightClicked => 2,
        MouseState::IsDoubleClicked => 3,
    }
}

fn state_index(state: MouseState) -> (r: usize)
    ensures
        r == state_bit(state),
{
    match state {
        MouseState::IsDown => 0,
        MouseState::IsLeftClicked => 1,
        MouseState::IsRightClicked => 2,
        MouseState::IsDoubleClicked => 3,
    }
}

/// A mouse event as the browser reports it.
#[derive(Clone, Copy, Debug, PartialEq, Eq, Structural)]
pub enum MouseEvent {
    Move,
    Down,
    Up,
    Click,
    DoubleClick,
    ContextMenu,
}

/// A mouse event with the pointer position it happened at.
#[derive(Clone, Copy, Debug, PartialEq, Eq, Structural)]
pub struct MouseEventInfo {
    pub x: i32,
    pub y: i32,
    pub event: MouseEvent,
}

/// The mouse as seen by one frame: the pointer position now and at the
/// start of the frame, and which conditions hold.
pub struct MouseTracker {
    mouse_x: i32,
    mouse_y: i32,
    mouse_pre_x: i32,
    mouse_pre_y: i32,
    mouse_state: BitSet64,
}

/// What a `MouseTracker` holds, as spec values.
pub struct MouseModel {
    pub x: i32,
    pub y: i32,
    pub pre_x: i32,
    pub pre_y: i32,
    pub states: Set<int>,
}

impl View for MouseTracker {
    type V = MouseModel;

    closed spec fn view(&self) -> MouseModel {
        MouseModel {
            x: self.mouse_x,
            y: self.mouse_y,
            pre_x: self.mouse_pre_x,
            pre_y: self.mouse_pre_y,
            states: self.mouse_state@,
        }
    }
}

/// The conditions after `event`: a press or release sets or clears "down";
/// a click, a context menu or a double click sets its own condition; a move
/// changes none.
pub open spec fn after_event(states: Set<int>, event: MouseEvent) -> Set<int> {
    match event {
        MouseEvent::Move => states,
        MouseEvent::Down => states.insert(state_bit(MouseState::IsDown)),
        MouseEvent::Up => states.remove(state_bit(MouseState::IsDown)),
        MouseEvent::Click => states.insert(state_bit(MouseState::IsLeftClicked)),
        MouseEvent::ContextMenu => states.insert(state_bit(MouseState::IsRightClicked)),
        MouseEvent::DoubleClick => states.insert(state_bit(MouseState::IsDoubleClicked)),
    }
}

impl MouseTracker {
    pub fn new() -> (r: MouseTracker)
        ensures
            r@ == (MouseModel { x: 0, y: 0, pre_x: 0, pre_y: 0, states: Set::empty() }),
    {
        MouseTracker {
            mouse_x: 0,
            mouse_y: 0,
            mouse_pre_x: 0,
            mouse_pre_y: 0,
            mouse_state: BitSet64::new(),
        }
    }

    pub fn mouse_x(&self) -> (r: i32)
        ensures
            r == self@.x,
    {
        self.mouse_x
    }

    pub fn mouse_y(&self) -> (r: i32)
        ensures
            r == self@.y,
    {
        self.mouse_y
    }

    /// How far the pointer moved horizontally during this frame.
    pub fn mouse_dx(&self) -> (r: i64)
        ensures
            r == self@.x - self@.pre_x,
    {
        self.mouse_x as i64 - self.mouse_pre_x as i64
    }

    /// How far the pointer moved vertically during this frame.
    pub fn mouse_dy(&self) -> (r: i64)
        ensures
            r == self@.y - self@.pre_y,
    {
        self.mouse_y as i64 - self.mouse_pre_y as i64
    }

    /// True when `state` holds in this frame.
    pub fn mouse_state(&self, state: MouseState) -> (r: bool)
        ensures
            r == self@.states.contains(state_bit(state)),
    {
        self.mouse_state.get(state_index(state))
    }

    /// Starts a frame: clicks of the last frame are forgotten, "down" is
    /// kept, and the pointer position becomes the frame's start position.
    pub fn begin_frame(&mut self)
        ensures
            final(self)@ == (MouseModel {
                pre_x: old(self)@.x,
                pre_y: old(self)@.y,
                states: if old(self)@.states.contains(state_bit(MouseState::IsDown)) {
                    set![state_bit(MouseState::IsDown)]
                } else {
                    Set::empty()
                },
                ..old(self)@
            }),
    {
        let is_down = self.mouse_state(MouseState::IsDown);
        self.mouse_state.clear();
        self.mouse_state.set(state_index(MouseState::IsDown), is_down);
        self.mouse_pre_x = self.mouse_x;
        self.mouse_pre_y = self.mouse_y;
        assert(self.mouse_state@ =~= if is_down {
            set![state_bit(MouseState::IsDown)]
        } else {
            Set::empty()
        });
    }

    /// Takes in one event of the frame.
    pub fn handle(&mut self, info: MouseEventInfo)
        ensures
            final(self)@ == (MouseModel {
                x: info.x,
                y: info.y,
                states: after_event(old(self)@.states, info.event),
                ..old(self)@
            }),
    {
        self.mouse_x = info.x;
        self.mouse_y = info.y;
        match info.event {
            MouseEvent::Move => {},
            MouseEvent::Down => self.mouse_state.set(state_index(MouseState::IsDown), true),
            MouseEvent::Up => self.mouse_state.set(state_index(MouseState::IsDown), false),
            MouseEvent::Click => self.mouse_state.set(state_index(MouseState::IsLeftClicked), true),
            MouseEvent::ContextMenu => self.mouse_state.set(
                state_index(MouseState::IsRightClicked),
                true,
            ),
            MouseEvent::DoubleClick => self.mouse_state.set(
                state_index(MouseState::IsDoubleClicked),
                true,
            ),
        }
    }
}

} // verus!
