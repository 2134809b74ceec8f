//! The proved laws of the engine.
//!
//! Each proof function here states one guarantee of the worker engine over
//! the model in [`crate::model`], exactly as the executable engine's
//! contracts expose it: identity restoration around every dispatch, the
//! close protocol, single error forwarding, freedom from starvation among
//! the lanes, and first-in first-out handling within each lane under any
//! interleaving.

use vstd::prelude::*;
use crate::model::{EngineModel, dispatched, front_msg, micro_events, micros_of, events_of,
    lemma_stepped_progress_consumes, next_lane, pick, posted_inbox, run_model, stepped,
    timers_ok, with_closing};
use crate::msgs::{Event, ExitReason, InboxMsg, MixedMsg, OwnerMsg, RunOutcome, ScriptMsg,
    StepStatus, TaskSpec, TimerMsg};

verus! {

// ------------------------------------------------------------------
// Identity restore
// ------------------------------------------------------------------

/// After dispatching any envelope — success, failure, or a violating timer
/// fire — the identity cell holds exactly its pre-dispatch value.
pub proof fn lemma_identity_restored(m: EngineModel, msg: MixedMsg)
    ensures
        dispatched(m, msg).identity == m.identity,
{
}

/// A whole run of the processing loop leaves the identity cell exactly as
/// it found it, however many dispatches it performed and however they
/// ended.
pub proof fn lemma_run_restores_identity(m: EngineModel)
    requires
        m.wf(),
    ensures
        run_model(m).0.identity == m.identity,
    decreases m.pending(),
{
    let s = stepped(m);
    if s.1 == StepStatus::Progressed {
        lemma_stepped_progress_consumes(m);
        lemma_run_restores_identity(s.0);
    }
}

// ------------------------------------------------------------------
// Close correctness
// ------------------------------------------------------------------

/// Once the closing flag is observed, the loop exits at its very next
/// iteration — within one receive cycle — processing nothing and changing
/// nothing.
pub proof fn lemma_close_halts(m: EngineModel)
    requires
        m.wf(),
        m.closing,
    ensures
        stepped(m) == (m, StepStatus::Exited(ExitReason::Closed)),
        run_model(m) == (m, RunOutcome::Exited(ExitReason::Closed)),
{
}

/// No envelope enqueued after the closing flag flipped is ever processed:
/// whatever arrives in the inbox after the flip, the run dispatches nothing
/// and the log stays exactly as it was.
pub proof fn lemma_close_discards_later_sends(m: EngineModel, im: InboxMsg)
    requires
        m.wf(),
    ensures
        run_model(posted_inbox(with_closing(m), im)).0.log == m.log,
{
    lemma_close_halts(posted_inbox(with_closing(m), im));
}

// ------------------------------------------------------------------
// No starvation
// ------------------------------------------------------------------

/// Wherever the cursor stands, the three rotation candidates cover every
/// lane, so a ready lane means the selector finds something.
pub proof fn lemma_ready_lane_found(m: EngineModel, l: int)
    requires
        m.wf(),
        0 <= l < 3,
        m.lane_ready(l),
    ensures
        pick(m) is Some,
{
    assert(l == m.cursor || l == next_lane(m.cursor) || l == next_lane(next_lane(m.cursor)));
}

/// A progressing step consumes one envelope from the picked lane, leaves
/// every other lane untouched, rotates the cursor just past the picked
/// lane, and preserves everything the loop needs to keep progressing.
pub proof fn lemma_progress_keeps_lanes(m: EngineModel)
    requires
        m.wf(),
        !m.closing,
        !m.violation,
        timers_ok(m),
        pick(m) is Some,
    ensures
        stepped(m).1 == StepStatus::Progressed,
        ({
            let l0 = pick(m)->0;
            let m1 = stepped(m).0;
            &&& m1.wf()
            &&& !m1.closing
            &&& !m1.violation
            &&& timers_ok(m1)
            &&& m1.cursor == next_lane(l0)
            &&& m1.debug_attached == m.debug_attached
            &&& m1.lane_len(l0) + 1 == m.lane_len(l0)
            &&& forall|j: int| 0 <= j < 3 && j != l0 ==> m1.lane_len(j) == m.lane_len(j)
        }),
{
    let l0 = pick(m)->0;
    if l0 == 1 {
        assert(m.timers[0].source == crate::msgs::TimerSource::FromWorkerSource);
    }
    let m1 = stepped(m).0;
    if l0 == 1 {
        assert forall|i: int| 0 <= i < m1.timers.len() implies (#[trigger] m1.timers[i]).source
            == crate::msgs::TimerSource::FromWorkerSource by {
            assert(m1.timers[i] == m.timers[i + 1]);
        }
    }
}

/// No starvation: a lane with a pending envelope is selected within at most
/// three loop iterations, under any interleaving of ready lanes — as long
/// as the engine keeps running (nothing closed it and no violation
/// surfaced).
pub proof fn lemma_no_starvation(m: EngineModel, l: int)
    requires
        m.wf(),
        0 <= l < 3,
        m.lane_ready(l),
        !m.closing,
        !m.violation,
        timers_ok(m),
    ensures
        ({
            let m1 = stepped(m).0;
            let m2 = stepped(m1).0;
            pick(m) == Some(l) || pick(m1) == Some(l) || pick(m2) == Some(l)
        }),
{
    lemma_ready_lane_found(m, l);
    let p0 = pick(m)->0;
    if p0 != l {
        lemma_progress_keeps_lanes(m);
        let m1 = stepped(m).0;
        assert(m1.lane_ready(l));
        lemma_ready_lane_found(m1, l);
        let p1 = pick(m1)->0;
        if p1 != l {
            lemma_progress_keeps_lanes(m1);
            let m2 = stepped(m1).0;
            assert(m2.lane_ready(l));
            assert(l != p0 && l != p1);
            assert(m2.cursor == next_lane(p1));
            assert(pick(m2) == Some(l));
        }
    }
}

// ------------------------------------------------------------------
// Error forwarding
// ------------------------------------------------------------------

/// An uncaught error from one task yields exactly one error-report task
/// through the owner channel while it is open; with the owner gone the
/// report is silently swallowed, and a task that completes posts nothing.
pub proof fn lemma_error_forwarded_once(m: EngineModel, target: u64, t: TaskSpec)
    ensures
        ({
            let msg = MixedMsg::FromWorker(InboxMsg { target, msg: ScriptMsg::Task(t) });
            &&& (t.failure is Some && m.owner_open) ==> dispatched(m, msg).owner_out
                == m.owner_out.push(OwnerMsg::ErrorReport(t.failure->0))
            &&& (t.failure is Some && !m.owner_open) ==> dispatched(m, msg).owner_out
                == m.owner_out
            &&& t.failure is None ==> dispatched(m, msg).owner_out == m.owner_out
        }),
{
    let msg = MixedMsg::FromWorker(InboxMsg { target, msg: ScriptMsg::Task(t) });
    if t.failure is Some && m.owner_open {
        assert(dispatched(m, msg).owner_out =~= m.owner_out.push(
            OwnerMsg::ErrorReport(t.failure->0),
        ));
    } else {
        assert(dispatched(m, msg).owner_out =~= m.owner_out);
    }
}

// ------------------------------------------------------------------
// FIFO within a lane
// ------------------------------------------------------------------

/// The log entries that inbox envelopes produce.
pub open spec fn from_inbox(e: Event) -> bool {
    match e {
        Event::TaskDone(_) => true,
        Event::TaskFailed(_) => true,
        Event::MessageEvent(_) => true,
        Event::Microtask(_) => true,
        _ => false,
    }
}

/// The inbox predicate as one value, so that every filter below names the
/// same function.
pub open spec fn inbox_pred() -> spec_fn(Event) -> bool {
    |e: Event| from_inbox(e)
}

/// The log entries that timer envelopes produce.
pub open spec fn from_timer(e: Event) -> bool {
    e matches Event::TimerCallback(_)
}

/// The timer predicate as one value.
pub open spec fn timer_pred() -> spec_fn(Event) -> bool {
    |e: Event| from_timer(e)
}

/// Everything one inbox envelope contributes to the log: its dispatch event
/// followed by its drained continuations.
pub open spec fn inbox_trace_of(im: InboxMsg) -> Seq<Event> {
    events_of(MixedMsg::FromWorker(im)) + micro_events(micros_of(MixedMsg::FromWorker(im)))
}

/// Everything the inbox lane contributes to the log, envelope by envelope,
/// in lane order.
pub open spec fn inbox_trace(s: Seq<InboxMsg>) -> Seq<Event>
    decreases s.len(),
{
    if s.len() == 0 {
        Seq::empty()
    } else {
        inbox_trace_of(s.first()) + inbox_trace(s.drop_first())
    }
}

/// Everything the timer lane contributes to the log: one callback per
/// delivered fire, in lane order.
pub open spec fn timer_trace(s: Seq<TimerMsg>) -> Seq<Event> {
    s.map_values(|t: TimerMsg| Event::TimerCallback(t.id))
}

/// A filter keeps a sequence every element of which it accepts.
proof fn lemma_filter_keeps_all(s: Seq<Event>, pred: spec_fn(Event) -> bool)
    requires
        forall|i: int| 0 <= i < s.len() ==> pred(#[trigger] s[i]),
    ensures
        s.filter(pred) == s,
    decreases s.len(),
{
    reveal(Seq::filter);
    if s.len() > 0 {
        lemma_filter_keeps_all(s.drop_last(), pred);
        assert(s.drop_last().push(s.last()) =~= s);
    }
}

/// A filter drops a sequence no element of which it accepts.
proof fn lemma_filter_keeps_none(s: Seq<Event>, pred: spec_fn(Event) -> bool)
    requires
        forall|i: int| 0 <= i < s.len() ==> !pred(#[trigger] s[i]),
    ensures
        s.filter(pred) == Seq::<Event>::empty(),
    decreases s.len(),
{
    reveal(Seq::filter);
    if s.len() == 0 {
        assert(s.filter(pred) =~= Seq::<Event>::empty());
    } else {
        lemma_filter_keeps_none(s.drop_last(), pred);
    }
}

/// What one progressing step appends to the log, and that the appended
/// chunk is exactly the front envelope's trace.
proof fn lemma_progress_log_chunk(m: EngineModel)
    requires
        m.wf(),
        !m.closing,
        !m.violation,
        timers_ok(m),
        m.micro == Seq::<u64>::empty(),
        pick(m) is Some,
    ensures
        ({
            let l = pick(m)->0;
            let chunk = events_of(front_msg(m, l)) + micro_events(micros_of(front_msg(m, l)));
            &&& stepped(m).1 == StepStatus::Progressed
            &&& stepped(m).0.log == m.log + chunk
            &&& stepped(m).0.micro == Seq::<u64>::empty()
        }),
{
    lemma_progress_keeps_lanes(m);
    let l = pick(m)->0;
    let msg = front_msg(m, l);
    let chunk = events_of(msg) + micro_events(micros_of(msg));
    assert(m.micro + micros_of(msg) =~= micros_of(msg));
    assert(stepped(m).0.log =~= m.log + chunk);
    assert(stepped(m).0.micro =~= Seq::<u64>::empty());
}

/// FIFO within the inbox lane: whatever the interleaving with the timer and
/// debug lanes, the inbox-derived part of the log grows by exactly the
/// inbox envelopes' traces, in the order the envelopes were sent.
pub proof fn lemma_lane_fifo(m: EngineModel)
    requires
        m.wf(),
        !m.closing,
        !m.violation,
        timers_ok(m),
        m.micro == Seq::<u64>::empty(),
    ensures
        run_model(m).0.log.filter(inbox_pred()) == m.log.filter(inbox_pred()) + inbox_trace(
            m.inbox,
        ),
    decreases m.pending(),
{
    broadcast use vstd::seq_lib::group_seq_lib_default;

    if pick(m) is Some {
        let l = pick(m)->0;
        lemma_progress_keeps_lanes(m);
        lemma_stepped_progress_consumes(m);
        lemma_progress_log_chunk(m);
        let msg = front_msg(m, l);
        let chunk = events_of(msg) + micro_events(micros_of(msg));
        let m1 = stepped(m).0;
        lemma_lane_fifo(m1);
        if l == 0 {
            assert forall|i: int| 0 <= i < chunk.len() implies inbox_pred()(
                #[trigger] chunk[i],
            ) by {
                if i >= events_of(msg).len() {
                    assert(chunk[i] == micro_events(micros_of(msg))[i - events_of(msg).len()]);
                }
            }
            lemma_filter_keeps_all(chunk, inbox_pred());
            assert(chunk == inbox_trace_of(m.inbox.first()));
            assert(m1.inbox == m.inbox.drop_first());
            assert(inbox_trace(m.inbox) == inbox_trace_of(m.inbox.first()) + inbox_trace(
                m.inbox.drop_first(),
            ));
            assert((m.log.filter(inbox_pred()) + chunk) + inbox_trace(m1.inbox) =~= m.log.filter(
                inbox_pred(),
            ) + inbox_trace(m.inbox));
        } else {
            assert forall|i: int| 0 <= i < chunk.len() implies !inbox_pred()(
                #[trigger] chunk[i],
            ) by {
                if i >= events_of(msg).len() {
                    assert(chunk[i] == micro_events(micros_of(msg))[i - events_of(msg).len()]);
                }
            }
            lemma_filter_keeps_none(chunk, inbox_pred());
            assert(m1.inbox == m.inbox);
            assert(m.log.filter(inbox_pred()) + Seq::<Event>::empty() + inbox_trace(m1.inbox)
                =~= m.log.filter(inbox_pred()) + inbox_trace(m.inbox));
        }
    } else {
        assert(m.inbox.len() == 0);
        assert(run_model(m).0 == m);
        assert(m.log.filter(inbox_pred()) + inbox_trace(m.inbox) =~= m.log.filter(inbox_pred()));
    }
}

/// FIFO and exactly-once within the timer lane: whatever the interleaving
/// with the other lanes, the run invokes exactly one callback per delivered
/// fire, in delivery order.
pub proof fn lemma_timer_callbacks_in_order(m: EngineModel)
    requires
        m.wf(),
        !m.closing,
        !m.violation,
        timers_ok(m),
        m.micro == Seq::<u64>::empty(),
    ensures
        run_model(m).0.log.filter(timer_pred()) == m.log.filter(timer_pred()) + timer_trace(
            m.timers,
        ),
    decreases m.pending(),
{
    broadcast use vstd::seq_lib::group_seq_lib_default;

    if pick(m) is Some {
        let l = pick(m)->0;
        lemma_progress_keeps_lanes(m);
        lemma_stepped_progress_consumes(m);
        lemma_progress_log_chunk(m);
        let msg = front_msg(m, l);
        let chunk = events_of(msg) + micro_events(micros_of(msg));
        let m1 = stepped(m).0;
        lemma_timer_callbacks_in_order(m1);
        if l == 1 {
            assert forall|i: int| 0 <= i < chunk.len() implies timer_pred()(
                #[trigger] chunk[i],
            ) by {
                assert(chunk[i] == events_of(msg)[i]);
            }
            lemma_filter_keeps_all(chunk, timer_pred());
            assert(m1.timers == m.timers.drop_first());
            assert(timer_trace(m.timers) =~= chunk + timer_trace(m.timers.drop_first()));
            assert((m.log.filter(timer_pred()) + chunk) + timer_trace(m1.timers) =~= m.log.filter(
                timer_pred(),
            ) + timer_trace(m.timers));
        } else {
            assert forall|i: int| 0 <= i < chunk.len() implies !timer_pred()(
                #[trigger] chunk[i],
            ) by {
                if i >= events_of(msg).len() {
                    assert(chunk[i] == micro_events(micros_of(msg))[i - events_of(msg).len()]);
                }
            }
            lemma_filter_keeps_none(chunk, timer_pred());
            assert(m1.timers == m.timers);
            assert(m.log.filter(timer_pred()) + Seq::<Event>::empty() + timer_trace(m1.timers)
                =~= m.log.filter(timer_pred()) + timer_trace(m.timers));
        }
    } else {
        assert(m.timers.len() == 0);
        assert(run_model(m).0 == m);
        assert(timer_trace(m.timers) =~= Seq::<Event>::empty());
        assert(m.log.filter(timer_pred()) + timer_trace(m.timers) =~= m.log.filter(timer_pred()));
    }
}

} // verus!
