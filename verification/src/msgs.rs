//! Message envelopes, dispatch events and error records.
//!
//! Every value that crosses the engine boundary is a plain tagged union:
//! the three receive lanes carry [`InboxMsg`], [`TimerMsg`] and [`DebugMsg`]
//! envelopes, the selector hands the loop a [`MixedMsg`] tagged with its
//! origin lane, dispatch appends [`Event`]s to the engine's log, and the
//! owner channel carries [`OwnerMsg`] values posted back by the engine.

use vstd::prelude::*;

verus! {

/// The record built for an uncaught script error:
/// message, filename, line and column.
#[derive(Clone, PartialEq, Eq, Debug)]
pub struct ErrorRecord {
    pub message: String,
    pub filename: String,
    pub line: u32,
    pub column: u32,
}

/// A unit of work posted into the worker's inbox.
///
/// Running the task appends exactly one completion event to the engine log.
/// `follow_ups` are the lightweight continuations the task queues while it
/// runs; they are drained at the microtask checkpoint that follows the
/// envelope. When `failure` is set, running the task surfaces an uncaught
/// error described by the record, which the engine forwards to the owner.
#[derive(Clone, PartialEq, Eq, Debug)]
pub struct TaskSpec {
    pub id: u64,
    pub follow_ups: Vec<u64>,
    pub failure: Option<ErrorRecord>,
}

/// What an inbox envelope asks the engine to do: run a task directly, or
/// dispatch an inbound-message event carrying a structured-clone payload.
#[derive(Clone, PartialEq, Eq, Debug)]
pub enum ScriptMsg {
    Task(TaskSpec),
    InboundData(u64),
}

/// An inbox envelope: the address of the worker it targets, and the work.
#[derive(Clone, PartialEq, Eq, Debug)]
pub struct InboxMsg {
    pub target: u64,
    pub msg: ScriptMsg,
}

/// Where a timer fire notification originated. Only fires from the worker's
/// own timer source are legitimate on the timer lane.
#[derive(Clone, Copy, PartialEq, Eq, Structural, Debug)]
pub enum TimerSource {
    FromWorkerSource,
    FromWindowSource,
}

/// A timer-lane envelope: the targeted worker, the origin of the fire, and
/// the identifier of the timer whose callback is due.
#[derive(Clone, Copy, PartialEq, Eq, Structural, Debug)]
pub struct TimerMsg {
    pub target: u64,
    pub source: TimerSource,
    pub id: u64,
}

/// A debug-control envelope. Embedded reply channels are opaque to the
/// engine and are passed through unchanged as plain identifiers.
#[derive(Clone, PartialEq, Eq, Debug)]
pub enum DebugMsg {
    EvaluateScript { pipeline: u64, source_text: String, reply: u64 },
    GetCachedMessages { pipeline: u64, filter_mask: u64, reply: u64 },
    SetLiveNotifications { pipeline: u64, enabled: bool },
    Unrecognized { tag: u64 },
}

/// One envelope as returned by the selector, tagged with its origin lane.
#[derive(Clone, PartialEq, Eq, Debug)]
pub enum MixedMsg {
    FromWorker(InboxMsg),
    FromScheduler(TimerMsg),
    FromDevtools(DebugMsg),
}

/// An entry of the engine's dispatch log: the observable effect of handling
/// one envelope or draining one queued continuation.
#[derive(Clone, Copy, PartialEq, Eq, Structural, Debug)]
pub enum Event {
    /// A task ran to completion.
    TaskDone(u64),
    /// A task surfaced an uncaught error.
    TaskFailed(u64),
    /// An inbound-message event was dispatched with this payload.
    MessageEvent(u64),
    /// The callback of this timer id was invoked.
    TimerCallback(u64),
    /// A script evaluation request was delegated to the debug collaborator.
    DebugEvaluated { pipeline: u64, reply: u64 },
    /// A cached-message query was delegated to the debug collaborator.
    DebugCachedMessages { pipeline: u64, filter_mask: u64, reply: u64 },
    /// A live-notification toggle was delegated to the debug collaborator.
    DebugLiveNotifications { pipeline: u64, enabled: bool },
    /// An unrecognized debug-control variant was logged and dropped.
    DebugIgnored { tag: u64 },
    /// A queued continuation ran at the microtask checkpoint.
    Microtask(u64),
}

/// A value posted back through the owner's channel.
#[derive(Clone, PartialEq, Eq, Debug)]
pub enum OwnerMsg {
    /// Ask the owner to dispatch an error event for this record.
    ErrorReport(ErrorRecord),
    /// A message the worker posts back to the owner.
    OutboundData(u64),
    /// The single simplified error task posted when the script body
    /// could not be loaded.
    LoadFailure { locator: String },
}

/// What the selector found: one envelope, no ready lane (a real deployment
/// would block in the receive until one arrives), or a terminally closed
/// channel set — every sender into every lane has been dropped.
#[derive(Clone, PartialEq, Eq, Debug)]
pub enum Selection {
    Pulled(MixedMsg),
    WouldBlock,
    ChannelClosed,
}

/// Why the processing loop terminated.
#[derive(Clone, Copy, PartialEq, Eq, Structural, Debug)]
pub enum ExitReason {
    /// The closing flag was observed true.
    Closed,
    /// Every sender into every lane was dropped.
    ChannelClosed,
    /// A lane delivered an envelope inconsistent with its declared origin.
    ProtocolViolation,
}

/// The outcome of one loop iteration.
#[derive(Clone, Copy, PartialEq, Eq, Structural, Debug)]
pub enum StepStatus {
    /// One envelope was handled and its follow-up work drained.
    Progressed,
    /// No lane had a pending envelope; a real deployment would block here.
    Idle,
    /// The loop terminated.
    Exited(ExitReason),
}

/// The outcome of running the loop to quiescence.
#[derive(Clone, Copy, PartialEq, Eq, Structural, Debug)]
pub enum RunOutcome {
    /// The loop terminated for the given reason.
    Exited(ExitReason),
    /// Every serviceable lane is empty; a real deployment would now block
    /// in the selector until a new envelope arrives.
    Idle,
}

/// The answer of the cooperative-interrupt predicate that the script
/// context polls during long executions.
#[derive(Clone, Copy, PartialEq, Eq, Structural, Debug)]
pub enum InterruptDecision {
    ContinueScript,
    AbortScript,
}

} // verus!
