//! The vocabulary of input events and the snapshot of a game controller's
//! analogue axes.

use vstd::prelude::*;

verus! {

/// Number of axis counts that make one whole unit of deflection.
pub const AXIS_ONE: i32 = 32767;

/// A button of a game controller.
#[derive(Clone, Copy, Debug, PartialEq, Eq, Structural)]
pub enum Button {
    A,
    B,
    X,
    Y,
    Back,
    Start,
    Guide,
    LeftStick,
    RightStick,
    LeftShoulder,
    RightShoulder,
    DPadUp,
    DPadDown,
    DPadLeft,
    DPadRight,
}

/// An analogue axis of a game controller.
#[derive(Clone, Copy, Debug, PartialEq, Eq, Structural)]
pub enum Axis {
    LeftX,
    LeftY,
    RightX,
    RightY,
    TriggerLeft,
    TriggerRight,
}

/// A key of the keyboard. Keys without a binding are all `Other`.
#[derive(Clone, Copy, Debug, PartialEq, Eq, Structural)]
pub enum Keycode {
    Escape,
    Tab,
    Space,
    Up,
    Down,
    Q,
    E,
    A,
    D,
    W,
    S,
    Other,
}

/// One event of the input stream.
#[derive(Clone, Copy, Debug, PartialEq, Eq, Structural)]
pub enum Event {
    ButtonDown { button: Button },
    ButtonUp { button: Button },
    AxisMotion { axis: Axis },
    KeyDown { keycode: Option<Keycode> },
    KeyUp { keycode: Option<Keycode> },
    Quit,
    Other,
}

/// The six analogue axes of a game controller as read at one instant, in
/// axis counts.
#[derive(Clone, Copy, Debug, PartialEq, Eq, Structural)]
pub struct PadAxes {
    pub left_x: i16,
    pub left_y: i16,
    pub right_x: i16,
    pub right_y: i16,
    pub trigger_left: i16,
    pub trigger_right: i16,
}

impl PadAxes {
    /// The reading of a controller at rest, which also stands for an absent
    /// controller.
    pub open spec fn spec_zero() -> PadAxes {
        PadAxes {
            left_x: 0,
            left_y: 0,
            right_x: 0,
            right_y: 0,
            trigger_left: 0,
            trigger_right: 0,
        }
    }

    /// What an optional controller reads: its axes, or all zero when there is
    /// none.
    pub open spec fn of(pad: Option<PadAxes>) -> PadAxes {
        match pad {
            Some(p) => p,
            None => PadAxes::spec_zero(),
        }
    }

    /// Whether the reading is one that the normalised ranges hold for: every
    /// stick within a whole unit either way and no trigger below rest. A
    /// stick can also read one count under `-AXIS_ONE`.
    pub open spec fn in_range(self) -> bool {
        &&& -AXIS_ONE <= self.left_x
        &&& -AXIS_ONE <= self.left_y
        &&& -AXIS_ONE <= self.right_x
        &&& -AXIS_ONE <= self.right_y
        &&& 0 <= self.trigger_left
        &&& 0 <= self.trigger_right
    }

    /// Reads the given axis.
    pub open spec fn spec_axis(self, axis: Axis) -> int {
        match axis {
            Axis::LeftX => self.left_x as int,
            Axis::LeftY => self.left_y as int,
            Axis::RightX => self.right_x as int,
            Axis::RightY => self.right_y as int,
            Axis::TriggerLeft => self.trigger_left as int,
            Axis::TriggerRight => self.trigger_right as int,
        }
    }

    /// Reads the given axis.
    pub fn axis(&self, axis: Axis) -> (raw: i16)
        ensures
            raw as int == self.spec_axis(axis),
    {
        match axis {
            Axis::LeftX => self.left_x,
            Axis::LeftY => self.left_y,
            Axis::RightX => self.right_x,
            Axis::RightY => self.right_y,
            Axis::TriggerLeft => self.trigger_left,
            Axis::TriggerRight => self.trigger_right,
        }
    }
}

} // verus!
