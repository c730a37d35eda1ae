//! The input normaliser: it folds controller and keyboard events into the
//! player's intent.
//!
//! Every analogue field of [`Controller`] is in axis counts, so that
//! `AXIS_ONE` stands for a full deflection and a raw reading is stored as it
//! came, without rounding. Where a key and a stick drive the same field, the
//! last event wins: releasing a key zeroes the field even while the stick is
//! still deflected.

use vstd::prelude::*;
use crate::host::{App, AppState};
use crate::input::{Axis, Button, Event, Keycode, PadAxes, AXIS_ONE};

verus! {

/// The player's intent, as latched from the events seen so far.
#[derive(Clone, Copy, Debug, PartialEq, Eq, Structural)]
pub struct Controller {
    /// Turn about the vertical axis: `-AXIS_ONE`, 0 or `AXIS_ONE`.
    pub yaw: i32,
    /// Forward command, the left trigger negated.
    pub throttle: i32,
    /// Brake command, the right trigger.
    pub brake: i32,
    /// Left stick, horizontal, after the dead zone.
    pub x: i32,
    /// Left stick, vertical, after the dead zone; positive is up.
    pub y: i32,
    /// Largest magnitude of a left-stick reading that is still taken for
    /// noise.
    pub ls_deathzone: i32,
    /// Right stick, horizontal.
    pub rx: i32,
    /// Right stick, vertical; positive is up.
    pub ry: i32,
    /// Dead zone configured for the right stick.
    pub rs_deathzone: i32,
    /// Combined longitudinal command: `throttle + brake` after a trigger
    /// moved, a whole unit either way while an arrow key is down.
    pub power: i32,
    /// Held while the view is to stay fixed.
    pub fix_view: bool,
    /// Held while the view is to look backwards.
    pub look_back: bool,
}

/// The mathematical value of a [`Controller`].
pub struct ControlState {
    pub yaw: int,
    pub throttle: int,
    pub brake: int,
    pub x: int,
    pub y: int,
    pub ls_deathzone: int,
    pub rx: int,
    pub ry: int,
    pub rs_deathzone: int,
    pub power: int,
    pub fix_view: bool,
    pub look_back: bool,
}

impl View for Controller {
    type V = ControlState;

    open spec fn view(&self) -> ControlState {
        ControlState {
            yaw: self.yaw as int,
            throttle: self.throttle as int,
            brake: self.brake as int,
            x: self.x as int,
            y: self.y as int,
            ls_deathzone: self.ls_deathzone as int,
            rx: self.rx as int,
            ry: self.ry as int,
            rs_deathzone: self.rs_deathzone as int,
            power: self.power as int,
            fix_view: self.fix_view,
            look_back: self.look_back,
        }
    }
}

/// Whether a reading of `raw` counts lies outside a dead zone of `deadzone`
/// counts.
pub open spec fn exceeds(raw: int, deadzone: int) -> bool {
    raw > deadzone || raw < -deadzone
}

/// A reading after the dead zone: itself when it lies outside, else zero.
pub open spec fn spec_apply_deadzone(raw: int, deadzone: int) -> int {
    if exceeds(raw, deadzone) {
        raw
    } else {
        0
    }
}

/// The magnitude of a number of counts.
pub open spec fn magnitude(counts: int) -> int {
    if counts < 0 {
        -counts
    } else {
        counts
    }
}

impl Event {
    /// Whether the event is `button` going down.
    pub open spec fn pressed(self, button: Button) -> bool {
        self == (Event::ButtonDown { button })
    }

    /// Whether the event is `button` coming up.
    pub open spec fn released(self, button: Button) -> bool {
        self == (Event::ButtonUp { button })
    }

    /// Whether the event is `key` going down.
    pub open spec fn key_down(self, key: Keycode) -> bool {
        self == (Event::KeyDown { keycode: Some(key) })
    }

    /// Whether the event is `key` coming up.
    pub open spec fn key_up(self, key: Keycode) -> bool {
        self == (Event::KeyUp { keycode: Some(key) })
    }

    /// Whether the event reports motion of the left stick.
    pub open spec fn moves_left_stick(self) -> bool {
        self == (Event::AxisMotion { axis: Axis::LeftX })
            || self == (Event::AxisMotion { axis: Axis::LeftY })
    }

    /// Whether the event reports motion of the right stick.
    pub open spec fn moves_right_stick(self) -> bool {
        self == (Event::AxisMotion { axis: Axis::RightX })
            || self == (Event::AxisMotion { axis: Axis::RightY })
    }

    /// Whether the event reports motion of a trigger.
    pub open spec fn moves_trigger(self) -> bool {
        self == (Event::AxisMotion { axis: Axis::TriggerLeft })
            || self == (Event::AxisMotion { axis: Axis::TriggerRight })
    }
}

impl Event {
    /// Whether the table of bindings names this event: a motion of any axis,
    /// or a press or release of Y, the right stick, a shoulder button, Space,
    /// an arrow up or down, or one of Q, E, A, D, W, S.
    pub open spec fn is_bound(self) -> bool {
        match self {
            Event::AxisMotion { .. } => true,
            Event::ButtonDown { button } | Event::ButtonUp { button } => {
                button == Button::Y || button == Button::RightStick || button
                    == Button::LeftShoulder || button == Button::RightShoulder
            },
            Event::KeyDown { keycode: Some(key) } | Event::KeyUp { keycode: Some(key) } => {
                key != Keycode::Escape && key != Keycode::Tab && key != Keycode::Other
            },
            _ => false,
        }
    }
}

impl ControlState {
    /// The state before any event, with the given dead zones.
    pub open spec fn initial(ls_deathzone: int, rs_deathzone: int) -> ControlState {
        ControlState {
            yaw: 0,
            throttle: 0,
            brake: 0,
            x: 0,
            y: 0,
            ls_deathzone,
            rx: 0,
            ry: 0,
            rs_deathzone,
            power: 0,
            fix_view: false,
            look_back: false,
        }
    }

    /// Whether every field lies in its range: `yaw` is a whole unit or zero,
    /// `throttle` is not positive and `brake` not negative, all analogue
    /// fields are within a whole unit, the dead zones lie strictly between
    /// zero and a whole unit, and the left stick's fields are zero unless
    /// they lie outside its dead zone.
    pub open spec fn in_range(self) -> bool {
        &&& self.yaw == -AXIS_ONE || self.yaw == 0 || self.yaw == AXIS_ONE
        &&& -AXIS_ONE <= self.throttle <= 0
        &&& 0 <= self.brake <= AXIS_ONE
        &&& magnitude(self.power) <= AXIS_ONE
        &&& magnitude(self.x) <= AXIS_ONE
        &&& magnitude(self.y) <= AXIS_ONE
        &&& magnitude(self.rx) <= AXIS_ONE
        &&& magnitude(self.ry) <= AXIS_ONE
        &&& 0 < self.ls_deathzone < AXIS_ONE
        &&& 0 < self.rs_deathzone < AXIS_ONE
        &&& self.x == 0 || exceeds(self.x, self.ls_deathzone)
        &&& self.y == 0 || exceeds(self.y, self.ls_deathzone)
    }

    /// `yaw` after `event`: a shoulder button or Q / E sets it when it goes
    /// down, and the release of any of the four zeroes it, also while
    /// another of them is still down.
    pub open spec fn next_yaw(self, event: Event) -> int {
        if event.pressed(Button::LeftShoulder) || event.key_down(Keycode::Q) {
            -AXIS_ONE
        } else if event.pressed(Button::RightShoulder) || event.key_down(Keycode::E) {
            AXIS_ONE as int
        } else if event.released(Button::LeftShoulder) || event.released(Button::RightShoulder)
            || event.key_up(Keycode::Q) || event.key_up(Keycode::E) {
            0
        } else {
            self.yaw
        }
    }

    /// `x` after `event`: the left stick's horizontal reading past the dead
    /// zone, or a whole unit while A or D is down.
    pub open spec fn next_x(self, event: Event, pad: PadAxes) -> int {
        if event.moves_left_stick() {
            spec_apply_deadzone(pad.left_x as int, self.ls_deathzone)
        } else if event.key_down(Keycode::A) {
            -AXIS_ONE
        } else if event.key_down(Keycode::D) {
            AXIS_ONE as int
        } else if event.key_up(Keycode::A) || event.key_up(Keycode::D) {
            0
        } else {
            self.x
        }
    }

    /// `y` after `event`: the left stick's vertical reading past the dead
    /// zone, negated so that up is positive, or a whole unit while W or S is
    /// down.
    pub open spec fn next_y(self, event: Event, pad: PadAxes) -> int {
        if event.moves_left_stick() {
            -spec_apply_deadzone(pad.left_y as int, self.ls_deathzone)
        } else if event.key_down(Keycode::S) {
            -AXIS_ONE
        } else if event.key_down(Keycode::W) {
            AXIS_ONE as int
        } else if event.key_up(Keycode::S) || event.key_up(Keycode::W) {
            0
        } else {
            self.y
        }
    }

    /// `rx` after `event`: the right stick's horizontal reading as it is.
    pub open spec fn next_rx(self, event: Event, pad: PadAxes) -> int {
        if event.moves_right_stick() {
            pad.right_x as int
        } else {
            self.rx
        }
    }

    /// `ry` after `event`: the right stick's vertical reading, negated.
    pub open spec fn next_ry(self, event: Event, pad: PadAxes) -> int {
        if event.moves_right_stick() {
            -pad.right_y
        } else {
            self.ry
        }
    }

    /// `throttle` after `event`: the left trigger, negated.
    pub open spec fn next_throttle(self, event: Event, pad: PadAxes) -> int {
        if event.moves_trigger() {
            -pad.trigger_left
        } else {
            self.throttle
        }
    }

    /// `brake` after `event`: the right trigger.
    pub open spec fn next_brake(self, event: Event, pad: PadAxes) -> int {
        if event.moves_trigger() {
            pad.trigger_right as int
        } else {
            self.brake
        }
    }

    /// `power` after `event`: the right trigger less the left one, or a
    /// whole unit while an arrow key is down.
    pub open spec fn next_power(self, event: Event, pad: PadAxes) -> int {
        if event.moves_trigger() {
            pad.trigger_right - pad.trigger_left
        } else if event.key_down(Keycode::Down) {
            -AXIS_ONE
        } else if event.key_down(Keycode::Up) {
            AXIS_ONE as int
        } else if event.key_up(Keycode::Down) || event.key_up(Keycode::Up) {
            0
        } else {
            self.power
        }
    }

    /// `fix_view` after `event`: held while Y or Space is down.
    pub open spec fn next_fix_view(self, event: Event) -> bool {
        if event.pressed(Button::Y) || event.key_down(Keycode::Space) {
            true
        } else if event.released(Button::Y) || event.key_up(Keycode::Space) {
            false
        } else {
            self.fix_view
        }
    }

    /// `look_back` after `event`: held while the right stick is clicked.
    pub open spec fn next_look_back(self, event: Event) -> bool {
        if event.pressed(Button::RightStick) {
            true
        } else if event.released(Button::RightStick) {
            false
        } else {
            self.look_back
        }
    }

    /// The state after `event`, when the controller's axes read `pad`. The
    /// dead zones never change.
    pub open spec fn after(self, event: Event, pad: PadAxes) -> ControlState {
        ControlState {
            yaw: self.next_yaw(event),
            throttle: self.next_throttle(event, pad),
            brake: self.next_brake(event, pad),
            x: self.next_x(event, pad),
            y: self.next_y(event, pad),
            ls_deathzone: self.ls_deathzone,
            rx: self.next_rx(event, pad),
            ry: self.next_ry(event, pad),
            rs_deathzone: self.rs_deathzone,
            power: self.next_power(event, pad),
            fix_view: self.next_fix_view(event),
            look_back: self.next_look_back(event),
        }
    }
}

/// Filters a stick reading through a dead zone.
pub fn apply_deadzone(raw: i16, deadzone: i32) -> (filtered: i32)
    ensures
        filtered == spec_apply_deadzone(raw as int, deadzone as int),
{
    let wide: i64 = raw as i64;
    let zone: i64 = deadzone as i64;
    if wide > zone || wide < -zone {
        raw as i32
    } else {
        0
    }
}

/// Reads one axis of a controller that may be absent; an absent controller
/// reads zero.
pub fn read_axis(controller: &Option<PadAxes>, axis: Axis) -> (raw: i16)
    ensures
        raw as int == PadAxes::of(*controller).spec_axis(axis),
{
    match controller {
        Some(pad) => pad.axis(axis),
        None => 0,
    }
}

impl Controller {
    /// A controller at rest with the given dead zones, in axis counts.
    pub fn new(ls_deathzone: i32, rs_deathzone: i32) -> (controller: Controller)
        ensures
            controller@ == ControlState::initial(ls_deathzone as int, rs_deathzone as int),
    {
        Controller {
            yaw: 0,
            throttle: 0,
            brake: 0,
            x: 0,
            y: 0,
            ls_deathzone,
            rx: 0,
            ry: 0,
            rs_deathzone,
            power: 0,
            fix_view: false,
            look_back: false,
        }
    }

    /// Takes in one event. `controller` is what the game controller's axes
    /// read now, or `None` when no controller is attached, which reads as
    /// zero on every axis. Events without a binding change nothing.
    pub fn update(
        &mut self,
        event: Event,
        app: &mut App,
        app_state: &mut AppState,
        controller: &Option<PadAxes>,
    )
        ensures
            final(self)@ == old(self)@.after(event, PadAxes::of(*controller)),
            *final(app) == old(app).after(event),
            *final(app_state) == old(app_state).after(event),
            final(self).ls_deathzone == old(self).ls_deathzone,
            final(self).rs_deathzone == old(self).rs_deathzone,
    {
        match event {
            Event::ButtonDown { button } => {
                match button {
                    Button::Y => {
                        self.fix_view = true;
                    },
                    // Reserved for cycling through camera modes; without effect so far.
                    Button::Back => {},
                    Button::RightStick => {
                        self.look_back = true;
                    },
                    Button::LeftShoulder => {
                        self.yaw = -AXIS_ONE;
                    },
                    Button::RightShoulder => {
                        self.yaw = AXIS_ONE;
                    },
                    _ => {},
                }
            },
            Event::ButtonUp { button } => {
                match button {
                    Button::Y => {
                        self.fix_view = false;
                    },
                    Button::Back => {},
                    Button::RightStick => {
                        self.look_back = false;
                    },
                    Button::LeftShoulder => {
                        self.yaw = 0;
                    },
                    Button::RightShoulder => {
                        self.yaw = 0;
                    },
                    _ => {},
                }
            },
            Event::AxisMotion { axis } => {
                match axis {
                    Axis::LeftX | Axis::LeftY => {
                        let x: i16 = read_axis(controller, Axis::LeftX);
                        self.x = apply_deadzone(x, self.ls_deathzone);
                        let y: i16 = read_axis(controller, Axis::LeftY);
                        self.y = -apply_deadzone(y, self.ls_deathzone);
                    },
                    Axis::RightX | Axis::RightY => {
                        let x: i16 = read_axis(controller, Axis::RightX);
                        self.rx = x as i32;
                        let y: i16 = read_axis(controller, Axis::RightY);
                        self.ry = -(y as i32);
                    },
                    Axis::TriggerLeft | Axis::TriggerRight => {
                        let left: i16 = read_axis(controller, Axis::TriggerLeft);
                        let right: i16 = read_axis(controller, Axis::TriggerRight);
                        self.throttle = -(left as i32);
                        self.brake = right as i32;
                        self.power = self.brake + self.throttle;
                    },
                }
            },
            Event::KeyDown { keycode } => {
                match keycode {
                    Some(Keycode::Escape) => {
                        app_state.is_running = false;
                    },
                    Some(Keycode::Tab) => {
                        app.show_depth_map = !app.show_depth_map;
                    },
                    Some(Keycode::Space) => {
                        self.fix_view = true;
                    },
                    Some(Keycode::Down) => {
                        self.power = -AXIS_ONE;
                    },
                    Some(Keycode::Up) => {
                        self.power = AXIS_ONE;
                    },
                    Some(Keycode::Q) => {
                        self.yaw = -AXIS_ONE;
                    },
                    Some(Keycode::E) => {
                        self.yaw = AXIS_ONE;
                    },
                    Some(Keycode::A) => {
                        self.x = -AXIS_ONE;
                    },
                    Some(Keycode::D) => {
                        self.x = AXIS_ONE;
                    },
                    Some(Keycode::S) => {
                        self.y = -AXIS_ONE;
                    },
                    Some(Keycode::W) => {
                        self.y = AXIS_ONE;
                    },
                    _ => {},
                }
            },
            Event::KeyUp { keycode } => {
                match keycode {
                    Some(Keycode::Down) => {
                        self.power = 0;
                    },
                    Some(Keycode::Space) => {
                        self.fix_view = false;
                    },
                    Some(Keycode::Up) => {
                        self.power = 0;
                    },
                    Some(Keycode::Q) => {
                        self.yaw = 0;
                    },
                    Some(Keycode::E) => {
                        self.yaw = 0;
                    },
                    Some(Keycode::A) => {
                        self.x = 0;
                    },
                    Some(Keycode::D) => {
                        self.x = 0;
                    },
                    Some(Keycode::S) => {
                        self.y = 0;
                    },
                    Some(Keycode::W) => {
                        self.y = 0;
                    },
                    _ => {},
                }
            },
            Event::Quit => {
                app_state.is_running = false;
            },
            Event::Other => {},
        }
    }
}

/// A reading of at most `AXIS_ONE` counts either way is at most one whole
/// unit in magnitude, and so within a millionth of it.
pub proof fn lemma_reading_within_unit(raw: int)
    requires
        -AXIS_ONE <= raw <= AXIS_ONE,
    ensures
        magnitude(raw) <= AXIS_ONE,
        magnitude(raw) * 1_000_000 <= AXIS_ONE * 1_000_001,
{
}

/// The one reading that a stick can give beyond that, a count under
/// `-AXIS_ONE`, is more than a millionth over a whole unit.
pub proof fn lemma_lowest_reading_exceeds_unit()
    ensures
        magnitude(i16::MIN as int) == AXIS_ONE + 1,
        magnitude(i16::MIN as int) * 1_000_000 > AXIS_ONE * 1_000_001,
{
}

/// The dead zone lets a reading through unchanged or replaces it by zero,
/// and it is zero exactly when the reading is zero or no larger in magnitude
/// than the dead zone.
pub proof fn lemma_deadzone_filters(raw: int, deadzone: int)
    ensures
        magnitude(raw) <= deadzone ==> spec_apply_deadzone(raw, deadzone) == 0,
        magnitude(raw) > deadzone ==> spec_apply_deadzone(raw, deadzone) == raw,
        spec_apply_deadzone(raw, deadzone) == 0 <==> raw == 0 || magnitude(raw) <= deadzone,
{
}

/// When the left stick moves and one of its axes reads no more than the dead
/// zone in magnitude, the field of that axis is exactly zero afterwards.
pub proof fn lemma_deadzone_zeroes_axis(state: ControlState, event: Event, pad: PadAxes)
    requires
        event.moves_left_stick(),
    ensures
        magnitude(pad.left_x as int) <= state.ls_deathzone ==> state.after(event, pad).x == 0,
        magnitude(pad.left_y as int) <= state.ls_deathzone ==> state.after(event, pad).y == 0,
{
}

/// After any trigger event `power` is the sum of `throttle` and `brake`.
pub proof fn lemma_power_after_trigger(state: ControlState, event: Event, pad: PadAxes)
    requires
        event.moves_trigger(),
    ensures
        state.after(event, pad).power == state.after(event, pad).throttle + state.after(
            event,
            pad,
        ).brake,
{
}

/// A state at rest is in range exactly when both dead zones lie strictly
/// between zero and a whole unit.
pub proof fn lemma_initial_in_range(ls_deathzone: int, rs_deathzone: int)
    ensures
        ControlState::initial(ls_deathzone, rs_deathzone).in_range() <==> 0 < ls_deathzone
            < AXIS_ONE && 0 < rs_deathzone < AXIS_ONE,
{
}

/// Every event keeps a state in range, provided that the controller reads
/// in range.
pub proof fn lemma_update_keeps_range(state: ControlState, event: Event, pad: PadAxes)
    requires
        state.in_range(),
        pad.in_range(),
    ensures
        state.after(event, pad).in_range(),
{
}

/// A button event moves no analogue field but `yaw`, and a key or a button
/// never touches the right stick, the throttle or the brake.
pub proof fn lemma_buttons_leave_axes(state: ControlState, event: Event, pad: PadAxes)
    ensures
        event is ButtonDown || event is ButtonUp ==> {
            &&& state.after(event, pad).x == state.x
            &&& state.after(event, pad).y == state.y
            &&& state.after(event, pad).power == state.power
        },
        !(event is AxisMotion) ==> {
            &&& state.after(event, pad).rx == state.rx
            &&& state.after(event, pad).ry == state.ry
            &&& state.after(event, pad).throttle == state.throttle
            &&& state.after(event, pad).brake == state.brake
        },
{
}

/// Events that the table of bindings does not name leave the state as it
/// was; so do the two that only concern the application, Escape and Tab.
pub proof fn lemma_unbound_event_is_ignored(state: ControlState, event: Event, pad: PadAxes)
    requires
        !event.is_bound(),
    ensures
        state.after(event, pad) == state,
{
}

/// Taking in the same event twice, with the same reading, is taking it in
/// once: the state latches what the last event said.
pub proof fn lemma_event_is_idempotent(state: ControlState, event: Event, pad: PadAxes)
    ensures
        state.after(event, pad).after(event, pad) == state.after(event, pad),
{
}

/// What an event does to the state does not depend on the controller's
/// reading unless the event is an axis motion.
pub proof fn lemma_reading_matters_only_for_motion(
    state: ControlState,
    event: Event,
    pad: PadAxes,
    other: PadAxes,
)
    requires
        !(event is AxisMotion),
    ensures
        state.after(event, pad) == state.after(event, other),
{
}

} // verus!
