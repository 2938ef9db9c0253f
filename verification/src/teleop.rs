//! The operator-control loop as a state machine.
//!
//! The loop alternates work on the hardware with decisions. The decisions
//! are made here: `step` takes what the hardware reported and answers with
//! what to do next. Whoever owns the hardware performs each action and
//! hands back the event that it produced.
//!
//! One cycle polls the controller, commands the left motor, commands the
//! right motor and sleeps. A motor that refuses its command ends the loop at
//! once: nothing further is sent in that cycle or after it.

use crate::command::{MotorCommand, Side};
use crate::controller::ControllerInput;
use crate::drivebase::{spec_arcade_drive, Drivebase};
use vstd::prelude::*;

verus! {

/// Pause between two cycles, in milliseconds.
pub const CYCLE_DELAY_MS: u64 = 20;

/// What the loop is waiting for.
#[derive(Clone, Copy, Debug, PartialEq, Eq, Structural)]
pub enum LoopState {
    /// A controller snapshot.
    AwaitingInput,
    /// The outcome of the left motor's command; `pending` is the command
    /// that the right motor gets if the left one accepts.
    AwaitingLeft { pending: MotorCommand },
    /// The outcome of the right motor's command.
    AwaitingRight,
    /// The end of the pause between cycles.
    AwaitingWake,
    /// Nothing: a motor failed and the loop is over.
    Aborted,
}

/// What the hardware reported.
#[derive(Clone, Copy, Debug, PartialEq, Eq, Structural)]
pub enum Event {
    /// The controller was polled.
    Input(ControllerInput),
    /// The motor took the command sent last.
    Accepted,
    /// The motor, or the link to it, failed on the command sent last.
    Failed,
    /// The pause is over.
    Woke,
}

/// What to do next.
#[derive(Clone, Copy, Debug, PartialEq, Eq, Structural)]
pub enum Action {
    /// Poll the controller.
    Poll,
    /// Send `command` to the motor on `side`.
    Send { side: Side, command: MotorCommand },
    /// Pause for `millis` milliseconds.
    Sleep { millis: u64 },
    /// Leave the loop and report the motor failure to the caller.
    Abort,
}

/// The state and first action of a fresh loop.
pub open spec fn spec_start() -> (LoopState, Action) {
    (LoopState::AwaitingInput, Action::Poll)
}

/// The transition for `event` in `state`, or `None` where the state does
/// not wait for that event.
pub open spec fn spec_step(state: LoopState, event: Event) -> Option<(LoopState, Action)> {
    match (state, event) {
        (LoopState::AwaitingInput, Event::Input(controller)) => {
            let cmd = spec_arcade_drive(controller);
            Some(
                (
                    LoopState::AwaitingLeft { pending: cmd.right },
                    Action::Send { side: Side::Left, command: cmd.left },
                ),
            )
        },
        (LoopState::AwaitingLeft { pending }, Event::Accepted) => Some(
            (LoopState::AwaitingRight, Action::Send { side: Side::Right, command: pending }),
        ),
        (LoopState::AwaitingLeft { pending }, Event::Failed) => Some(
            (LoopState::Aborted, Action::Abort),
        ),
        (LoopState::AwaitingRight, Event::Accepted) => Some(
            (LoopState::AwaitingWake, Action::Sleep { millis: CYCLE_DELAY_MS }),
        ),
        (LoopState::AwaitingRight, Event::Failed) => Some((LoopState::Aborted, Action::Abort)),
        (LoopState::AwaitingWake, Event::Woke) => Some((LoopState::AwaitingInput, Action::Poll)),
        _ => None,
    }
}

/// Starts the loop: the first thing to do is to poll the controller.
pub fn start() -> (first: (LoopState, Action))
    ensures
        first == spec_start(),
{
    (LoopState::AwaitingInput, Action::Poll)
}

/// Advances the loop by one event.
///
/// Returns the next state and the action to perform, or `None` if `state`
/// does not wait for `event`.
pub fn step(drivebase: &Drivebase, state: LoopState, event: Event) -> (next: Option<
    (LoopState, Action),
>)
    ensures
        next == spec_step(state, event),
{
    match state {
        LoopState::AwaitingInput => match event {
            Event::Input(controller) => {
                let cmd = drivebase.arcade_drive(&controller);
                Some(
                    (
                        LoopState::AwaitingLeft { pending: cmd.right },
                        Action::Send { side: Side::Left, command: cmd.left },
                    ),
                )
            },
            _ => None,
        },
        LoopState::AwaitingLeft { pending } => match event {
            Event::Accepted => Some(
                (LoopState::AwaitingRight, Action::Send { side: Side::Right, command: pending }),
            ),
            Event::Failed => Some((LoopState::Aborted, Action::Abort)),
            _ => None,
        },
        LoopState::AwaitingRight => match event {
            Event::Accepted => Some(
                (LoopState::AwaitingWake, Action::Sleep { millis: CYCLE_DELAY_MS }),
            ),
            Event::Failed => Some((LoopState::Aborted, Action::Abort)),
            _ => None,
        },
        LoopState::AwaitingWake => match event {
            Event::Woke => Some((LoopState::AwaitingInput, Action::Poll)),
            _ => None,
        },
        LoopState::Aborted => None,
    }
}

/// A cycle in which both motors accept their commands sends the left
/// command, then the right command, then pauses, and polls again.
pub proof fn lemma_clean_cycle(controller: ControllerInput)
    ensures
        ({
            let cmd = spec_arcade_drive(controller);
            let left_sent = LoopState::AwaitingLeft { pending: cmd.right };
            &&& spec_step(spec_start().0, Event::Input(controller)) == Some(
                (left_sent, Action::Send { side: Side::Left, command: cmd.left }),
            )
            &&& spec_step(left_sent, Event::Accepted) == Some(
                (LoopState::AwaitingRight, Action::Send { side: Side::Right, command: cmd.right }),
            )
            &&& spec_step(LoopState::AwaitingRight, Event::Accepted) == Some(
                (LoopState::AwaitingWake, Action::Sleep { millis: CYCLE_DELAY_MS }),
            )
            &&& spec_step(LoopState::AwaitingWake, Event::Woke) == Some(spec_start())
        }),
{
}

/// A failure of the left motor ends the loop before the right motor is
/// commanded, and an ended loop takes no further event.
pub proof fn lemma_failure_ends_loop(pending: MotorCommand, later: Event)
    ensures
        spec_step(LoopState::AwaitingLeft { pending }, Event::Failed) == Some(
            (LoopState::Aborted, Action::Abort),
        ),
        spec_step(LoopState::AwaitingRight, Event::Failed) == Some(
            (LoopState::Aborted, Action::Abort),
        ),
        spec_step(LoopState::Aborted, later) is None,
{
}

} // verus!
