use vstd::prelude::*;
use vstd::string::*;

use crate::error::IdleError;
use crate::error::spec_message;
use crate::rng::MAX_DELAY;
use crate::rng::MIN_DELAY;
use crate::rng::random_delay_secs;
use crate::time_format::spec_hhmmss;
use crate::time_format::format_time_duration;

verus! {

/// The line printed on either exit path: the elapsed runtime as "HH:MM:SS"
/// behind a fixed prefix.
pub open spec fn spec_runtime_line(total_seconds: int) -> Seq<char> {
    "exiting; grater ran for "@ + spec_hhmmss(total_seconds)
}

/// The line printed when the mover thread fails: the error's own message
/// behind a fixed prefix.
pub open spec fn spec_crash_line(message: Seq<char>) -> Seq<char> {
    "grater crashed: "@ + message
}

/// The line that reports the elapsed runtime, "exiting; grater ran for HH:MM:SS".
pub fn runtime_line(elapsed_seconds: u64) -> (r: String)
    ensures
        r@ == spec_runtime_line(elapsed_seconds as int),
{
    let mut s = String::from_str("exiting; grater ran for ");
    let t = format_time_duration(elapsed_seconds);
    s.append(t.as_str());
    s
}

/// The line that reports a fatal error, "grater crashed: " and the error's message.
pub fn crash_line(error: &IdleError) -> (r: String)
    ensures
        r@ == spec_crash_line(spec_message(*error)),
{
    let mut s = String::from_str("grater crashed: ");
    let m = error.message();
    s.append(m.as_str());
    s
}

/// An event the window's event loop hands to the program; everything other
/// than a close request is ignored.
pub enum UiEvent {
    CloseRequested,
    Other,
}

/// What the event loop is told to do after an event.
pub enum UiAction {
    /// Keep blocking until the next event.
    Wait,
    /// Print the runtime line and end the event loop with a normal exit.
    Exit { runtime_line: String },
}

/// The event-loop decision: a close request ends the program with the
/// runtime report; every other event leaves the loop waiting.
pub fn handle_ui_event(event: &UiEvent, elapsed_seconds: u64) -> (a: UiAction)
    ensures
        *event is CloseRequested ==> (a matches UiAction::Exit { runtime_line } && runtime_line@
            == spec_runtime_line(elapsed_seconds as int)),
        !(*event is CloseRequested) ==> a is Wait,
{
    match event {
        UiEvent::CloseRequested => UiAction::Exit { runtime_line: runtime_line(elapsed_seconds) },
        UiEvent::Other => UiAction::Wait,
    }
}

/// What the mover thread is told to do after one cursor-move attempt.
pub enum MoverAction {
    /// Suspend the thread for that many seconds, then move again.
    Sleep { seconds: u64 },
    /// Print the two lines and terminate the whole process with a non-zero
    /// exit code: a cursor-move failure is unrecoverable.
    Abort { error_line: String, runtime_line: String },
}

/// The mover-loop decision, once a cursor-move request has come back.
/// On success the thread sleeps a random delay in `[MIN_DELAY, MAX_DELAY)`
/// seconds; on failure it aborts with the crash line for the move error and
/// the runtime line for the elapsed time.
pub fn mover_next_action(
    rng: &mut rand::rngs::ThreadRng,
    move_result: Result<(), String>,
    elapsed_seconds: u64,
) -> (a: MoverAction)
    ensures
        move_result is Ok ==> (a matches MoverAction::Sleep { seconds } && MIN_DELAY <= seconds
            < MAX_DELAY),
        move_result matches Err(e) ==> (a matches MoverAction::Abort { error_line, runtime_line }
            && error_line@ == spec_crash_line(spec_message(IdleError::CouldNotMoveCursor(e)))
            && runtime_line@ == spec_runtime_line(elapsed_seconds as int)),
{
    match move_result {
        Ok(_) => MoverAction::Sleep { seconds: random_delay_secs(rng) },
        Err(e) => {
            let err = IdleError::CouldNotMoveCursor(e);
            MoverAction::Abort {
                error_line: crash_line(&err),
                runtime_line: runtime_line(elapsed_seconds),
            }
        },
    }
}

} // verus!
