//! The mathematical model of the engine.
//!
//! [`EngineModel`] is the ghost image of the executable engine state. The
//! spec functions here define, lane by lane and step by step, what the engine
//! does: which lane the selector picks ([`pick`]), what dispatching one
//! envelope appends to the log, the microtask queue and the owner channel
//! ([`dispatched`]), what the microtask checkpoint drains ([`drained`]), what
//! one loop iteration is ([`stepped`]), and what running the loop to
//! quiescence yields ([`run_model`]). Every contract of the executable engine
//! is stated against these functions, and the laws in [`crate::laws`] are
//! proved about them.

use vstd::prelude::*;
use crate::msgs::{DebugMsg, Event, ExitReason, InboxMsg, MixedMsg, OwnerMsg, RunOutcome,
    ScriptMsg, StepStatus, TimerMsg, TimerSource};

verus! {

/// The ghost state of one worker engine.
///
/// `inbox`, `timers` and `debug` are the three receive lanes, front first.
/// `cursor` is the lane the selector examines first on the next receive.
/// `identity` is the stack of installed "current worker" addresses, top last.
/// `micro` is the queue of continuations awaiting the next checkpoint.
/// `log` records the observable effect of every dispatch, and `owner_out`
/// everything posted back through the owner's channel.
#[verifier::ext_equal]
pub ghost struct EngineModel {
    pub addr: u64,
    pub inbox: Seq<InboxMsg>,
    pub timers: Seq<TimerMsg>,
    pub debug: Seq<DebugMsg>,
    pub debug_attached: bool,
    pub closing: bool,
    pub senders_dropped: bool,
    pub owner_open: bool,
    pub cursor: int,
    pub identity: Seq<u64>,
    pub micro: Seq<u64>,
    pub log: Seq<Event>,
    pub owner_out: Seq<OwnerMsg>,
    pub violation: bool,
}

impl EngineModel {
    /// The selector cursor always names one of the three lanes.
    pub open spec fn wf(self) -> bool {
        0 <= self.cursor < 3
    }

    /// How many envelopes lane `l` holds (0 = inbox, 1 = timers, 2 = debug).
    pub open spec fn lane_len(self, l: int) -> nat {
        if l == 0 {
            self.inbox.len()
        } else if l == 1 {
            self.timers.len()
        } else {
            self.debug.len()
        }
    }

    /// The debug lane takes part in selection only while a debug collaborator
    /// is attached; the other two lanes always do.
    pub open spec fn lane_enabled(self, l: int) -> bool {
        l == 2 ==> self.debug_attached
    }

    /// Lane `l` can be serviced: it is enabled and holds an envelope.
    pub open spec fn lane_ready(self, l: int) -> bool {
        self.lane_enabled(l) && self.lane_len(l) > 0
    }

    /// Total number of envelopes waiting across all lanes.
    pub open spec fn pending(self) -> nat {
        self.inbox.len() + self.timers.len() + self.debug.len()
    }
}

/// The engine state right after spawn: empty lanes, empty log, cursor on the
/// inbox, no identity installed, flags clear, owner channel open.
pub open spec fn initial_model(addr: u64, debug_attached: bool) -> EngineModel {
    EngineModel {
        addr: addr,
        inbox: Seq::empty(),
        timers: Seq::empty(),
        debug: Seq::empty(),
        debug_attached: debug_attached,
        closing: false,
        senders_dropped: false,
        owner_open: true,
        cursor: 0,
        identity: Seq::empty(),
        micro: Seq::empty(),
        log: Seq::empty(),
        owner_out: Seq::empty(),
        violation: false,
    }
}

/// The lane the selector examines after lane `l`.
pub open spec fn next_lane(l: int) -> int {
    if l >= 2 {
        0
    } else {
        l + 1
    }
}

/// Which lane the selector services next: the first ready lane at or after
/// the cursor, in rotation order; `None` when no lane is ready.
pub open spec fn pick(m: EngineModel) -> Option<int> {
    let c0 = m.cursor;
    let c1 = next_lane(c0);
    let c2 = next_lane(c1);
    if m.lane_ready(c0) {
        Some(c0)
    } else if m.lane_ready(c1) {
        Some(c1)
    } else if m.lane_ready(c2) {
        Some(c2)
    } else {
        None
    }
}

/// The front envelope of lane `l`, tagged with its origin.
pub open spec fn front_msg(m: EngineModel, l: int) -> MixedMsg
    recommends
        m.lane_ready(l),
{
    if l == 0 {
        MixedMsg::FromWorker(m.inbox.first())
    } else if l == 1 {
        MixedMsg::FromScheduler(m.timers.first())
    } else {
        MixedMsg::FromDevtools(m.debug.first())
    }
}

/// The state after the selector removes the front envelope of lane `l` and
/// rotates the cursor past it.
pub open spec fn popped(m: EngineModel, l: int) -> EngineModel
    recommends
        m.lane_ready(l),
{
    EngineModel {
        inbox: if l == 0 { m.inbox.drop_first() } else { m.inbox },
        timers: if l == 1 { m.timers.drop_first() } else { m.timers },
        debug: if l == 2 { m.debug.drop_first() } else { m.debug },
        cursor: next_lane(l),
        ..m
    }
}

/// Every envelope waiting in the timer lane came from the worker's own
/// timer source — the relay delivered nothing foreign.
pub open spec fn timers_ok(m: EngineModel) -> bool {
    forall|i: int|
        0 <= i < m.timers.len() ==> (#[trigger] m.timers[i]).source
            == TimerSource::FromWorkerSource
}

/// A timer-lane envelope whose fire did not come from the worker's own timer
/// source is a protocol violation.
pub open spec fn violates(msg: MixedMsg) -> bool {
    msg matches MixedMsg::FromScheduler(t) && t.source != TimerSource::FromWorkerSource
}

/// The log entries that dispatching one envelope appends: exactly one event
/// per legitimate envelope, none for a protocol violation.
pub open spec fn events_of(msg: MixedMsg) -> Seq<Event> {
    match msg {
        MixedMsg::FromWorker(im) => match im.msg {
            ScriptMsg::Task(t) => if t.failure is Some {
                seq![Event::TaskFailed(t.id)]
            } else {
                seq![Event::TaskDone(t.id)]
            },
            ScriptMsg::InboundData(p) => seq![Event::MessageEvent(p)],
        },
        MixedMsg::FromScheduler(t) => if t.source == TimerSource::FromWorkerSource {
            seq![Event::TimerCallback(t.id)]
        } else {
            Seq::empty()
        },
        MixedMsg::FromDevtools(d) => match d {
            DebugMsg::EvaluateScript { pipeline, source_text: _, reply } => seq![
                Event::DebugEvaluated { pipeline, reply },
            ],
            DebugMsg::GetCachedMessages { pipeline, filter_mask, reply } => seq![
                Event::DebugCachedMessages { pipeline, filter_mask, reply },
            ],
            DebugMsg::SetLiveNotifications { pipeline, enabled } => seq![
                Event::DebugLiveNotifications { pipeline, enabled },
            ],
            DebugMsg::Unrecognized { tag } => seq![Event::DebugIgnored { tag }],
        },
    }
}

/// The continuations that dispatching one envelope queues for the next
/// microtask checkpoint: a task's follow-ups, nothing otherwise.
pub open spec fn micros_of(msg: MixedMsg) -> Seq<u64> {
    match msg {
        MixedMsg::FromWorker(im) => match im.msg {
            ScriptMsg::Task(t) => t.follow_ups@,
            ScriptMsg::InboundData(_) => Seq::empty(),
        },
        MixedMsg::FromScheduler(_) => Seq::empty(),
        MixedMsg::FromDevtools(_) => Seq::empty(),
    }
}

/// What dispatching one envelope posts back through the owner channel:
/// exactly one error report when a task surfaces an uncaught error and the
/// owner channel is still open; nothing otherwise. Delivery is best-effort:
/// a closed owner channel swallows the report and it is not retried.
pub open spec fn owner_out_of(msg: MixedMsg, owner_open: bool) -> Seq<OwnerMsg> {
    match msg {
        MixedMsg::FromWorker(im) => match im.msg {
            ScriptMsg::Task(t) => match t.failure {
                Some(rec) => if owner_open {
                    seq![OwnerMsg::ErrorReport(rec)]
                } else {
                    Seq::empty()
                },
                None => Seq::empty(),
            },
            ScriptMsg::InboundData(_) => Seq::empty(),
        },
        MixedMsg::FromScheduler(_) => Seq::empty(),
        MixedMsg::FromDevtools(_) => Seq::empty(),
    }
}

/// The state after dispatching one envelope.
///
/// A violating envelope only sets the violation flag. Any other envelope
/// appends its events to the log, its continuations to the microtask queue
/// and its owner posts to the owner channel. The identity stack is the same
/// before and after every dispatch: the guard restores it even when the
/// dispatch surfaced an error.
pub open spec fn dispatched(m: EngineModel, msg: MixedMsg) -> EngineModel {
    if violates(msg) {
        EngineModel { violation: true, ..m }
    } else {
        EngineModel {
            log: m.log + events_of(msg),
            micro: m.micro + micros_of(msg),
            owner_out: m.owner_out + owner_out_of(msg, m.owner_open),
            ..m
        }
    }
}

/// The log entries recording a drained microtask queue, in queue order.
pub open spec fn micro_events(ids: Seq<u64>) -> Seq<Event> {
    ids.map_values(|id: u64| Event::Microtask(id))
}

/// The state after the microtask checkpoint: the queued continuations run in
/// order, each appending its event to the log, and the queue empties.
pub open spec fn drained(m: EngineModel) -> EngineModel {
    EngineModel { log: m.log + micro_events(m.micro), micro: Seq::empty(), ..m }
}

/// One iteration of the processing loop.
///
/// The closing flag is observed at the loop top: once it is true the loop
/// exits before receiving anything, so no envelope enqueued after the flag
/// flipped is ever processed. A previously recorded protocol violation also
/// exits. Otherwise the selector either finds no ready lane — the loop is
/// idle, or has terminally lost all senders — or services one envelope:
/// dispatch, then the microtask checkpoint, which completes before the next
/// receive. A violating envelope exits immediately, without a checkpoint.
pub open spec fn stepped(m: EngineModel) -> (EngineModel, StepStatus) {
    if m.closing {
        (m, StepStatus::Exited(ExitReason::Closed))
    } else if m.violation {
        (m, StepStatus::Exited(ExitReason::ProtocolViolation))
    } else {
        match pick(m) {
            Option::None => if m.senders_dropped {
                (m, StepStatus::Exited(ExitReason::ChannelClosed))
            } else {
                (m, StepStatus::Idle)
            },
            Option::Some(l) => {
                let m1 = dispatched(popped(m, l), front_msg(m, l));
                if m1.violation {
                    (m1, StepStatus::Exited(ExitReason::ProtocolViolation))
                } else {
                    (drained(m1), StepStatus::Progressed)
                }
            },
        }
    }
}

/// Running the loop until it exits or every serviceable lane is empty.
/// Each progressing step consumes exactly one envelope, so the run is a
/// function of the starting state.
pub open spec fn run_model(m: EngineModel) -> (EngineModel, RunOutcome)
    decreases m.pending(),
    when m.wf()
    via run_model_decreases
{
    let s = stepped(m);
    match s.1 {
        StepStatus::Progressed => run_model(s.0),
        StepStatus::Idle => (s.0, RunOutcome::Idle),
        StepStatus::Exited(r) => (s.0, RunOutcome::Exited(r)),
    }
}

#[via_fn]
proof fn run_model_decreases(m: EngineModel) {
    if m.wf() && stepped(m).1 == StepStatus::Progressed {
        lemma_stepped_progress_consumes(m);
    }
}

/// A progressing step consumes exactly one envelope from the picked lane and
/// adds none, so the number of pending envelopes goes down by one.
pub proof fn lemma_stepped_progress_consumes(m: EngineModel)
    requires
        m.wf(),
        stepped(m).1 == StepStatus::Progressed,
    ensures
        stepped(m).0.pending() + 1 == m.pending(),
{
    let l = pick(m).unwrap();
    assert(m.lane_ready(l));
    let mp = popped(m, l);
    let m1 = dispatched(mp, front_msg(m, l));
    assert(stepped(m).0 == drained(m1));
    assert(drained(m1).pending() == mp.pending());
    if l == 0 {
        assert(m.inbox.drop_first().len() == m.inbox.len() - 1);
    } else if l == 1 {
        assert(m.timers.drop_first().len() == m.timers.len() - 1);
    } else {
        assert(m.debug.drop_first().len() == m.debug.len() - 1);
    }
    assert(mp.pending() + 1 == m.pending());
}

/// The state after a sender delivers one envelope into the inbox lane.
pub open spec fn posted_inbox(m: EngineModel, im: InboxMsg) -> EngineModel {
    EngineModel { inbox: m.inbox.push(im), ..m }
}

/// The state after the relay delivers one fire into the timer lane.
pub open spec fn posted_timer(m: EngineModel, t: TimerMsg) -> EngineModel {
    EngineModel { timers: m.timers.push(t), ..m }
}

/// The state after a debug-control envelope arrives on the debug lane.
pub open spec fn posted_debug(m: EngineModel, d: DebugMsg) -> EngineModel {
    EngineModel { debug: m.debug.push(d), ..m }
}

/// The state after the worker posts one value back through the owner channel.
pub open spec fn posted_owner(m: EngineModel, om: OwnerMsg) -> EngineModel {
    EngineModel { owner_out: m.owner_out.push(om), ..m }
}

/// The state after the closing flag is set. The flag is monotonic: nothing
/// ever resets it.
pub open spec fn with_closing(m: EngineModel) -> EngineModel {
    EngineModel { closing: true, ..m }
}

/// The state after the last sender into the lanes is dropped.
pub open spec fn with_senders_dropped(m: EngineModel) -> EngineModel {
    EngineModel { senders_dropped: true, ..m }
}

/// The state after the owner's receiving end is gone: posts back to the
/// owner silently fail from here on.
pub open spec fn with_owner_closed(m: EngineModel) -> EngineModel {
    EngineModel { owner_open: false, ..m }
}

} // verus!
