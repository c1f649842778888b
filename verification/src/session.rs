//! The order in which a host talks to the device over I2C.
//!
//! A session resets the device, then identifies the module, then reads
//! measurement frames. This module decides; it neither reads nor writes nor
//! waits. The caller performs each `Action` and reports what came of it as
//! an `Event`:
//!
//! ```text
//! Unknown -> Resetting -> AwaitingModule -> ModuleKnown
//!                     \                  \-> Streaming -> Finished
//!                      \---------------------^
//! ```

use vstd::prelude::*;
use crate::error::Error;
use crate::response::measurement::Measurement;
use crate::response::module::Module;

verus! {

/// Milliseconds that the device is left alone after a reset.
pub const SETTLE_MS: u64 = 1000;

/// What a session sets out to do, and how patiently.
#[derive(Debug, Clone, Copy, PartialEq, Eq)]
pub struct Plan {
    /// Milliseconds to wait after the reset command.
    pub settle_ms: u64,
    /// Whether the module is identified before frames are read.
    pub identify: bool,
    /// How many times the module identity may be asked for; `None` for as
    /// often as it takes. It is asked for once in any case.
    pub module_attempts: Option<u32>,
    /// Milliseconds between two attempts to identify the module.
    pub module_retry_ms: u64,
    /// How many measurement frames are read, refused ones included; `None`
    /// for a stream without end.
    pub frames: Option<u32>,
    /// Milliseconds to wait after a frame that decoded.
    pub frame_interval_ms: u64,
    /// Milliseconds to wait after a frame that was refused.
    pub frame_retry_ms: u64,
}

impl Plan {
    /// Identify the module and stop: eleven attempts, a quarter of a second
    /// apart.
    pub fn identify_module() -> (plan: Plan)
        ensures
            plan == (Plan {
                settle_ms: SETTLE_MS,
                identify: true,
                module_attempts: Some(11u32),
                module_retry_ms: 250,
                frames: Some(0u32),
                frame_interval_ms: 0,
                frame_retry_ms: 0,
            }),
    {
        Plan {
            settle_ms: SETTLE_MS,
            identify: true,
            module_attempts: Some(11),
            module_retry_ms: 250,
            frames: Some(0),
            frame_interval_ms: 0,
            frame_retry_ms: 0,
        }
    }

    /// Read three hundred frames, one every second and a half, without
    /// asking the module for its identity.
    pub fn show_measurements() -> (plan: Plan)
        ensures
            plan == (Plan {
                settle_ms: SETTLE_MS,
                identify: false,
                module_attempts: Some(0u32),
                module_retry_ms: 0,
                frames: Some(300u32),
                frame_interval_ms: 1500,
                frame_retry_ms: 1500,
            }),
    {
        Plan {
            settle_ms: SETTLE_MS,
            identify: false,
            module_attempts: Some(0),
            module_retry_ms: 0,
            frames: Some(300),
            frame_interval_ms: 1500,
            frame_retry_ms: 1500,
        }
    }

    /// Identify the module, however long it takes, then read a frame every
    /// `interval_secs` seconds without end. A refused frame is read again
    /// after 1.1 seconds. An interval beyond what milliseconds in 64 bits
    /// can hold is taken as the longest that they can.
    pub fn log(interval_secs: u64) -> (plan: Plan)
        ensures
            plan == (Plan {
                settle_ms: SETTLE_MS,
                identify: true,
                module_attempts: None,
                module_retry_ms: 500,
                frames: None,
                frame_interval_ms: if interval_secs * 1000 <= u64::MAX {
                    (interval_secs * 1000) as u64
                } else {
                    u64::MAX
                },
                frame_retry_ms: 1100,
            }),
    {
        let frame_interval_ms: u64 = if interval_secs <= u64::MAX / 1000 {
            interval_secs * 1000
        } else {
            u64::MAX
        };
        Plan {
            settle_ms: SETTLE_MS,
            identify: true,
            module_attempts: None,
            module_retry_ms: 500,
            frames: None,
            frame_interval_ms,
            frame_retry_ms: 1100,
        }
    }
}

/// Where a session stands.
#[derive(Debug, Clone, Copy, PartialEq, Eq)]
pub enum State {
    /// Nothing was sent yet; the device may be in any state.
    Unknown,
    /// The reset command is on its way or the device is settling.
    Resetting,
    /// The module identity was asked for and not yet had; `failures` counts
    /// the attempts that failed.
    AwaitingModule { failures: u32 },
    /// The module is identified and nothing more is asked of it.
    ModuleKnown,
    /// Measurement frames are read; `frames` counts those read so far.
    Streaming { frames: u32 },
    /// All frames of the plan were read.
    Finished,
    /// The session was given up.
    Failed,
}

/// What came of the action that the caller performed last.
#[derive(Debug, Clone, Copy, PartialEq, Eq)]
pub enum Event {
    /// Nothing was done yet: the session starts.
    Start,
    /// The reset command was written and the settle time is over.
    Settled,
    /// The module identity frame was read and decoded.
    ModuleAccepted,
    /// The module identity frame was read and refused.
    ModuleRefused,
    /// A measurement frame was read and decoded.
    FrameAccepted,
    /// A measurement frame was read and refused.
    FrameRefused,
    /// The bus failed while writing or reading.
    BusFault,
}

/// Why a session was given up.
#[derive(Debug, Clone, Copy, PartialEq, Eq)]
pub enum Failure {
    /// The module did not identify itself within the attempts of the plan.
    ModuleNotDetected,
    /// The bus failed where the session cannot go on without it.
    BusFault,
    /// An event was reported that the action asked for cannot end in.
    OutOfTurn,
}

/// What the caller is to do next.
#[derive(Debug, Clone, Copy, PartialEq, Eq)]
pub enum Action {
    /// Write the reset command, then wait `settle_ms` milliseconds.
    Reset { settle_ms: u64 },
    /// Wait `after_ms` milliseconds, then write the command that asks for
    /// the module identity and read its frame.
    QueryModule { after_ms: u64 },
    /// Wait `after_ms` milliseconds, then read a measurement frame.
    ReadFrame { after_ms: u64 },
    /// The session is over; there is nothing left to do.
    Stop,
    /// The session is given up.
    Abort(Failure),
}

/// `count` and one more, as far as 32 bits go.
pub open spec fn counted(count: u32) -> u32 {
    if count < u32::MAX {
        (count + 1) as u32
    } else {
        count
    }
}

/// Whether `count` uses up a `limit`; no limit is ever used up.
pub open spec fn used_up(limit: Option<u32>, count: u32) -> bool {
    match limit {
        Some(most) => count >= most,
        None => false,
    }
}

/// Whether a session in `state` is over, for better or worse.
pub open spec fn is_over(state: State) -> bool {
    state is ModuleKnown || state is Finished || state is Failed
}

/// The step into the stream of frames: the first read, or the end where
/// the plan asks for no frame.
pub open spec fn enter_stream(plan: Plan) -> (State, Action) {
    if used_up(plan.frames, 0) {
        (State::Finished, Action::Stop)
    } else {
        (State::Streaming { frames: 0 }, Action::ReadFrame { after_ms: 0 })
    }
}

/// The step after the module identity was had: into the stream, or to rest
/// where the plan asks for no frame.
pub open spec fn after_module(plan: Plan) -> (State, Action) {
    if used_up(plan.frames, 0) {
        (State::ModuleKnown, Action::Stop)
    } else {
        (State::Streaming { frames: 0 }, Action::ReadFrame { after_ms: 0 })
    }
}

/// The step after an attempt to identify the module failed, `failures`
/// attempts having failed before it: another attempt after the pause of the
/// plan, unless the attempts of the plan are used up.
pub open spec fn after_module_failure(plan: Plan, failures: u32) -> (State, Action) {
    if used_up(plan.module_attempts, counted(failures)) {
        (State::Failed, Action::Abort(Failure::ModuleNotDetected))
    } else {
        (
            State::AwaitingModule { failures: counted(failures) },
            Action::QueryModule { after_ms: plan.module_retry_ms },
        )
    }
}

/// The step after a frame was read, `frames` having been read before it:
/// the next read after `pause_ms`, unless the frames of the plan are used
/// up.
pub open spec fn after_frame(plan: Plan, frames: u32, pause_ms: u64) -> (State, Action) {
    if used_up(plan.frames, counted(frames)) {
        (State::Finished, Action::Stop)
    } else {
        (State::Streaming { frames: counted(frames) }, Action::ReadFrame { after_ms: pause_ms })
    }
}

/// The state that follows `state` on `event` under `plan`, and the action
/// that the caller is to perform next.
///
/// A failed attempt to identify the module is tried again, a bus fault
/// among them; a refused frame does not end the stream; a bus fault while
/// resetting or streaming ends the session, and so does an event that the
/// last action cannot have ended in. A session that is over stays so.
pub open spec fn next(plan: Plan, state: State, event: Event) -> (State, Action) {
    match state {
        State::Unknown => match event {
            Event::Start => (State::Resetting, Action::Reset { settle_ms: plan.settle_ms }),
            _ => (State::Failed, Action::Abort(Failure::OutOfTurn)),
        },
        State::Resetting => match event {
            Event::Settled => if plan.identify {
                (State::AwaitingModule { failures: 0 }, Action::QueryModule { after_ms: 0 })
            } else {
                enter_stream(plan)
            },
            Event::BusFault => (State::Failed, Action::Abort(Failure::BusFault)),
            _ => (State::Failed, Action::Abort(Failure::OutOfTurn)),
        },
        State::AwaitingModule { failures } => match event {
            Event::ModuleAccepted => after_module(plan),
            Event::ModuleRefused => after_module_failure(plan, failures),
            Event::BusFault => after_module_failure(plan, failures),
            _ => (State::Failed, Action::Abort(Failure::OutOfTurn)),
        },
        State::Streaming { frames } => match event {
            Event::FrameAccepted => after_frame(plan, frames, plan.frame_interval_ms),
            Event::FrameRefused => after_frame(plan, frames, plan.frame_retry_ms),
            Event::BusFault => (State::Failed, Action::Abort(Failure::BusFault)),
            _ => (State::Failed, Action::Abort(Failure::OutOfTurn)),
        },
        State::ModuleKnown => (State::ModuleKnown, Action::Stop),
        State::Finished => (State::Finished, Action::Stop),
        State::Failed => (State::Failed, Action::Stop),
    }
}

/// Counts one more, as far as 32 bits go.
fn count_one(count: u32) -> (more: u32)
    ensures
        more == counted(count),
{
    if count < u32::MAX {
        count + 1
    } else {
        count
    }
}

/// Tells whether `count` uses up `limit`.
fn is_used_up(limit: Option<u32>, count: u32) -> (used: bool)
    ensures
        used == used_up(limit, count),
{
    match limit {
        Some(most) => count >= most,
        None => false,
    }
}

/// Decides the next read of the stream after one more frame.
fn step_after_frame(plan: &Plan, frames: u32, pause_ms: u64) -> (step: (State, Action))
    ensures
        step == after_frame(*plan, frames, pause_ms),
{
    let frames: u32 = count_one(frames);
    if is_used_up(plan.frames, frames) {
        (State::Finished, Action::Stop)
    } else {
        (State::Streaming { frames }, Action::ReadFrame { after_ms: pause_ms })
    }
}

/// Decides what follows a failed attempt to identify the module.
fn step_after_module_failure(plan: &Plan, failures: u32) -> (step: (State, Action))
    ensures
        step == after_module_failure(*plan, failures),
{
    let failures: u32 = count_one(failures);
    if is_used_up(plan.module_attempts, failures) {
        (State::Failed, Action::Abort(Failure::ModuleNotDetected))
    } else {
        (State::AwaitingModule { failures }, Action::QueryModule { after_ms: plan.module_retry_ms })
    }
}

/// Takes a session one step on: from `state` and the `event` that the last
/// action ended in to the state that follows and the action to perform
/// next.
pub fn step(plan: &Plan, state: State, event: Event) -> (result: (State, Action))
    ensures
        result == next(*plan, state, event),
{
    match state {
        State::Unknown => match event {
            Event::Start => (State::Resetting, Action::Reset { settle_ms: plan.settle_ms }),
            _ => (State::Failed, Action::Abort(Failure::OutOfTurn)),
        },
        State::Resetting => match event {
            Event::Settled => {
                if plan.identify {
                    (State::AwaitingModule { failures: 0 }, Action::QueryModule { after_ms: 0 })
                } else if is_used_up(plan.frames, 0) {
                    (State::Finished, Action::Stop)
                } else {
                    (State::Streaming { frames: 0 }, Action::ReadFrame { after_ms: 0 })
                }
            },
            Event::BusFault => (State::Failed, Action::Abort(Failure::BusFault)),
            _ => (State::Failed, Action::Abort(Failure::OutOfTurn)),
        },
        State::AwaitingModule { failures } => match event {
            Event::ModuleAccepted => {
                if is_used_up(plan.frames, 0) {
                    (State::ModuleKnown, Action::Stop)
                } else {
                    (State::Streaming { frames: 0 }, Action::ReadFrame { after_ms: 0 })
                }
            },
            Event::ModuleRefused => step_after_module_failure(plan, failures),
            Event::BusFault => step_after_module_failure(plan, failures),
            _ => (State::Failed, Action::Abort(Failure::OutOfTurn)),
        },
        State::Streaming { frames } => match event {
            Event::FrameAccepted => step_after_frame(plan, frames, plan.frame_interval_ms),
            Event::FrameRefused => step_after_frame(plan, frames, plan.frame_retry_ms),
            Event::BusFault => (State::Failed, Action::Abort(Failure::BusFault)),
            _ => (State::Failed, Action::Abort(Failure::OutOfTurn)),
        },
        State::ModuleKnown => (State::ModuleKnown, Action::Stop),
        State::Finished => (State::Finished, Action::Stop),
        State::Failed => (State::Failed, Action::Stop),
    }
}

/// The event that an attempt to identify the module ends in, given what
/// decoding its frame gave.
pub fn module_event(decoded: &Result<Module, Error>) -> (event: Event)
    ensures
        event == (if decoded is Ok {
            Event::ModuleAccepted
        } else {
            Event::ModuleRefused
        }),
{
    match decoded {
        Ok(_) => Event::ModuleAccepted,
        Err(_) => Event::ModuleRefused,
    }
}

/// The event that the read of a measurement frame ends in, given what
/// decoding the frame gave.
pub fn frame_event(decoded: &Result<Measurement, Error>) -> (event: Event)
    ensures
        event == (if decoded is Ok {
            Event::FrameAccepted
        } else {
            Event::FrameRefused
        }),
{
    match decoded {
        Ok(_) => Event::FrameAccepted,
        Err(_) => Event::FrameRefused,
    }
}

/// The state after `times` attempts to identify the module have failed in a
/// row, the first of them made right after the reset.
pub open spec fn after_failures(plan: Plan, times: nat) -> State
    decreases times,
{
    if times == 0 {
        State::AwaitingModule { failures: 0 }
    } else {
        next(plan, after_failures(plan, (times - 1) as nat), Event::ModuleRefused).0
    }
}

/// A session that is over stays over: whatever is reported, the state
/// stands and nothing is left to do.
pub proof fn lemma_over_stays_over(plan: Plan, state: State, event: Event)
    requires
        is_over(state),
    ensures
        next(plan, state, event) == (state, Action::Stop),
{
}

/// A refused frame does not end a stream: while frames are left to read,
/// the next one is read after the pause of the plan.
pub proof fn lemma_refused_frame_keeps_stream(plan: Plan, frames: u32)
    requires
        !used_up(plan.frames, counted(frames)),
    ensures
        next(plan, State::Streaming { frames }, Event::FrameRefused) == (
            State::Streaming { frames: counted(frames) },
            Action::ReadFrame { after_ms: plan.frame_retry_ms },
        ),
{
}

/// A stream without end has no last frame: accepted or refused, each frame
/// is followed by the read of another.
pub proof fn lemma_endless_stream(plan: Plan, frames: u32, event: Event)
    requires
        plan.frames is None,
        event is FrameAccepted || event is FrameRefused,
    ensures
        next(plan, State::Streaming { frames }, event).0 is Streaming,
        next(plan, State::Streaming { frames }, event).1 is ReadFrame,
{
}

/// The attempts to identify the module are bounded as the plan says: with
/// `most` attempts allowed, the session goes on asking while fewer than
/// `most` have failed, and is given up once `most` have.
pub proof fn lemma_detection_is_bounded(plan: Plan, most: u32, times: nat)
    requires
        plan.module_attempts == Some(most),
        most > 0,
    ensures
        times < most ==> after_failures(plan, times) == (State::AwaitingModule {
            failures: times as u32,
        }),
        times >= most ==> after_failures(plan, times) == State::Failed,
    decreases times,
{
    if times > 0 {
        lemma_detection_is_bounded(plan, most, (times - 1) as nat);
    }
}

/// Without a bound the session never gives the module up: however many
/// attempts have failed, the identity is asked for again.
pub proof fn lemma_detection_without_bound(plan: Plan, times: nat)
    requires
        plan.module_attempts is None,
    ensures
        after_failures(plan, times) is AwaitingModule,
    decreases times,
{
    if times > 0 {
        lemma_detection_without_bound(plan, (times - 1) as nat);
    }
}

/// No frame is read before its time: a session enters the stream from the
/// reset where the plan does not identify the module, and else only once
/// the module has identified itself.
pub proof fn lemma_stream_entry(plan: Plan, state: State, event: Event)
    requires
        next(plan, state, event).0 is Streaming,
    ensures
        state is Streaming || (state is AwaitingModule && event is ModuleAccepted) || (state
            is Resetting && event is Settled && !plan.identify),
        next(plan, state, event).1 is ReadFrame,
{
}

/// The caller is asked for the module identity only while the session
/// waits for it, and for a frame only while it streams.
pub proof fn lemma_action_fits_state(plan: Plan, state: State, event: Event)
    ensures
        next(plan, state, event).1 is Reset <==> next(plan, state, event).0 is Resetting,
        next(plan, state, event).1 is QueryModule <==> next(plan, state, event).0
            is AwaitingModule,
        next(plan, state, event).1 is ReadFrame <==> next(plan, state, event).0 is Streaming,
        next(plan, state, event).1 is Abort ==> next(plan, state, event).0 is Failed,
        next(plan, state, event).1 is Stop ==> is_over(next(plan, state, event).0),
{
}

} // verus!
