//! The input phase of a frame: the pending events are taken in, in the
//! order in which they arrived, and the frame then either goes on or is the
//! last one.

use vstd::prelude::*;
use crate::controller::{ControlState, Controller};
use crate::host::{App, AppState};
use crate::input::{Event, PadAxes};

verus! {

/// Whether the frame loop goes on after this frame.
#[derive(Clone, Copy, Debug, PartialEq, Eq, Structural)]
pub enum FrameState {
    Running,
    Stopping,
}

/// An event together with what the game controller's axes read when the
/// event was taken from the queue; `None` when no controller is attached.
#[derive(Clone, Copy, Debug, PartialEq, Eq, Structural)]
pub struct Input {
    pub event: Event,
    pub pad: Option<PadAxes>,
}

/// All that the input phase reads and writes.
pub struct Session {
    pub controls: ControlState,
    pub app: App,
    pub app_state: AppState,
}

impl Session {
    /// The session after one input.
    pub open spec fn step(self, input: Input) -> Session {
        Session {
            controls: self.controls.after(input.event, PadAxes::of(input.pad)),
            app: self.app.after(input.event),
            app_state: self.app_state.after(input.event),
        }
    }

    /// The session after the inputs, taken from first to last.
    pub open spec fn run(self, inputs: Seq<Input>) -> Session
        decreases inputs.len(),
    {
        if inputs.len() == 0 {
            self
        } else {
            self.run(inputs.drop_last()).step(inputs.last())
        }
    }

    /// Whether the frame loop goes on from here.
    pub open spec fn frame_state(self) -> FrameState {
        if self.app_state.is_running {
            FrameState::Running
        } else {
            FrameState::Stopping
        }
    }
}

/// Whether the frame loop goes on.
pub fn frame_state(app_state: &AppState) -> (state: FrameState)
    ensures
        state == if app_state.is_running {
            FrameState::Running
        } else {
            FrameState::Stopping
        },
{
    if app_state.is_running {
        FrameState::Running
    } else {
        FrameState::Stopping
    }
}

/// Takes in every pending input, from first to last, and says whether the
/// frame loop goes on. No input is skipped, also not after a shutdown
/// request.
pub fn drain(
    controller: &mut Controller,
    app: &mut App,
    app_state: &mut AppState,
    inputs: &Vec<Input>,
) -> (state: FrameState)
    ensures
        (Session { controls: final(controller)@, app: *final(app), app_state: *final(app_state) })
            == (Session {
            controls: old(controller)@,
            app: *old(app),
            app_state: *old(app_state),
        }).run(inputs@),
        state == (Session {
            controls: old(controller)@,
            app: *old(app),
            app_state: *old(app_state),
        }).run(inputs@).frame_state(),
{
    let ghost start = Session { controls: controller@, app: *app, app_state: *app_state };
    let mut taken: usize = 0;
    while taken < inputs.len()
        invariant
            taken <= inputs.len(),
            (Session { controls: controller@, app: *app, app_state: *app_state }) == start.run(
                inputs@.take(taken as int),
            ),
        decreases inputs.len() - taken,
    {
        let input = inputs[taken];
        proof {
            let upto = inputs@.take(taken + 1);
            assert(upto.drop_last() == inputs@.take(taken as int));
            assert(upto.last() == input);
        }
        controller.update(input.event, app, app_state, &input.pad);
        taken = taken + 1;
    }
    proof {
        assert(inputs@.take(taken as int) == inputs@);
    }
    frame_state(app_state)
}

/// Taking in two batches one after the other is taking in their
/// concatenation: the session is a left fold over the stream of inputs.
pub proof fn lemma_run_concat(session: Session, first: Seq<Input>, second: Seq<Input>)
    ensures
        session.run(first + second) == session.run(first).run(second),
    decreases second.len(),
{
    if second.len() == 0 {
        assert(first + second == first);
    } else {
        lemma_run_concat(session, first, second.drop_last());
        assert((first + second).drop_last() == first + second.drop_last());
        assert((first + second).last() == second.last());
    }
}

/// The application is running after a batch exactly when it was running
/// before and no input of the batch asked for shutdown. So a stopped
/// application stays stopped.
pub proof fn lemma_running_iff_no_shutdown(session: Session, inputs: Seq<Input>)
    ensures
        session.run(inputs).app_state.is_running <==> session.app_state.is_running && forall|
            i: int,
        |
            0 <= i < inputs.len() ==> !(#[trigger] inputs[i]).event.requests_shutdown(),
    decreases inputs.len(),
{
    if inputs.len() > 0 {
        let front = inputs.drop_last();
        lemma_running_iff_no_shutdown(session, front);
        assert(forall|i: int| 0 <= i < front.len() ==> front[i] == inputs[i]);
        if session.run(inputs).app_state.is_running {
            assert forall|i: int| 0 <= i < inputs.len() implies !(#[trigger] inputs[i])
                .event.requests_shutdown() by {
                if i < front.len() {
                    assert(front[i] == inputs[i]);
                }
            }
        }
    }
}

/// A batch never changes the dead zones.
pub proof fn lemma_run_keeps_deadzones(session: Session, inputs: Seq<Input>)
    ensures
        session.run(inputs).controls.ls_deathzone == session.controls.ls_deathzone,
        session.run(inputs).controls.rs_deathzone == session.controls.rs_deathzone,
    decreases inputs.len(),
{
    if inputs.len() > 0 {
        lemma_run_keeps_deadzones(session, inputs.drop_last());
    }
}

/// A batch keeps the controls in range, provided that every reading in it is
/// in range.
pub proof fn lemma_run_keeps_range(session: Session, inputs: Seq<Input>)
    requires
        session.controls.in_range(),
        forall|i: int| 0 <= i < inputs.len() ==> PadAxes::of((#[trigger] inputs[i]).pad).in_range(),
    ensures
        session.run(inputs).controls.in_range(),
    decreases inputs.len(),
{
    if inputs.len() > 0 {
        let front = inputs.drop_last();
        assert(forall|i: int| 0 <= i < front.len() ==> front[i] == inputs[i]);
        lemma_run_keeps_range(session, front);
    }
}

} // verus!
