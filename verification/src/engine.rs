//! The executable worker engine.
//!
//! One engine instance owns the three receive lanes, the closing flag, the
//! identity cell, the microtask queue, the dispatch log and the owner-channel
//! outbox, and runs the processing loop: select one envelope, install the
//! targeted worker's identity, dispatch, drain follow-up work, repeat until
//! the closing flag is observed, every sender is gone, or a protocol
//! violation surfaces. Every method's contract is stated against the ghost
//! [`EngineModel`] in [`crate::model`]; the loop's contract says exactly
//! which state and outcome [`run_model`] assigns to the starting state.
//!
//! The blocking wait itself lives outside this crate: when no lane is ready
//! the selector reports [`Selection::WouldBlock`] and the surrounding process
//! parks on its real channels, delivers the next arrival through one of the
//! posting methods, and calls back in.

use vstd::prelude::*;
use crate::identity::IdentityCell;
use crate::model::{EngineModel, dispatched, drained, front_msg, initial_model,
    lemma_stepped_progress_consumes, micro_events, pick, popped, posted_debug, posted_inbox,
    posted_owner, posted_timer, run_model, stepped, with_closing, with_owner_closed,
    with_senders_dropped};
use crate::msgs::{DebugMsg, Event, ExitReason, InboxMsg, InterruptDecision, MixedMsg,
    OwnerMsg, RunOutcome, ScriptMsg, Selection, StepStatus, TaskSpec, TimerMsg, TimerSource};

verus! {

/// One dedicated worker engine. An instance is confined to one thread of
/// control for its whole life; only the closing flag is ever written from
/// the owner's side, and [`Engine::close`] models exactly that write.
pub struct Engine {
    addr: u64,
    inbox: Vec<InboxMsg>,
    timers: Vec<TimerMsg>,
    debug: Vec<DebugMsg>,
    debug_attached: bool,
    closing: bool,
    senders_dropped: bool,
    owner_open: bool,
    cursor: usize,
    identity: IdentityCell,
    micro: Vec<u64>,
    log: Vec<Event>,
    owner_out: Vec<OwnerMsg>,
    violation: bool,
}

impl View for Engine {
    type V = EngineModel;

    closed spec fn view(&self) -> EngineModel {
        EngineModel {
            addr: self.addr,
            inbox: self.inbox@,
            timers: self.timers@,
            debug: self.debug@,
            debug_attached: self.debug_attached,
            closing: self.closing,
            senders_dropped: self.senders_dropped,
            owner_open: self.owner_open,
            cursor: self.cursor as int,
            identity: self.identity@,
            micro: self.micro@,
            log: self.log@,
            owner_out: self.owner_out@,
            violation: self.violation,
        }
    }
}

impl Engine {
    /// A fresh engine for the worker at `addr`, with the debug-control lane
    /// taking part in selection only when a debug collaborator is attached.
    pub fn new(addr: u64, debug_attached: bool) -> (e: Engine)
        ensures
            e@ == initial_model(addr, debug_attached),
            e@.wf(),
    {
        let e = Engine {
            addr,
            inbox: Vec::new(),
            timers: Vec::new(),
            debug: Vec::new(),
            debug_attached,
            closing: false,
            senders_dropped: false,
            owner_open: true,
            cursor: 0,
            identity: IdentityCell::new(),
            micro: Vec::new(),
            log: Vec::new(),
            owner_out: Vec::new(),
            violation: false,
        };
        proof {
            assert(e@ =~= initial_model(addr, debug_attached));
        }
        e
    }

    /// A sender delivers a task envelope into the inbox lane.
    pub fn post_task(&mut self, target: u64, task: TaskSpec)
        ensures
            final(self)@ == posted_inbox(
                old(self)@,
                (InboxMsg { target, msg: ScriptMsg::Task(task) }),
            ),
    {
        let im = InboxMsg { target, msg: ScriptMsg::Task(task) };
        self.inbox.push(im);
        proof {
            assert(self@ =~= posted_inbox(old(self)@, (InboxMsg {
                target,
                msg: ScriptMsg::Task(task),
            })));
        }
    }

    /// A sender delivers an inbound-data envelope into the inbox lane.
    pub fn post_data(&mut self, target: u64, payload: u64)
        ensures
            final(self)@ == posted_inbox(
                old(self)@,
                (InboxMsg { target, msg: ScriptMsg::InboundData(payload) }),
            ),
    {
        let im = InboxMsg { target, msg: ScriptMsg::InboundData(payload) };
        self.inbox.push(im);
        proof {
            assert(self@ =~= posted_inbox(old(self)@, (InboxMsg {
                target,
                msg: ScriptMsg::InboundData(payload),
            })));
        }
    }

    /// The relay delivers a fire notification into the timer lane.
    pub fn post_timer(&mut self, fire: TimerMsg)
        ensures
            final(self)@ == posted_timer(old(self)@, fire),
    {
        self.timers.push(fire);
        proof {
            assert(self@ =~= posted_timer(old(self)@, fire));
        }
    }

    /// A debug-control envelope arrives on the debug lane.
    pub fn post_debug(&mut self, d: DebugMsg)
        ensures
            final(self)@ == posted_debug(old(self)@, d),
    {
        self.debug.push(d);
        proof {
            assert(self@ =~= posted_debug(old(self)@, d));
        }
    }

    /// Set the closing flag: the owner asked the worker to close, or the
    /// worker closed itself. Non-blocking, no acknowledgement; the flag is
    /// monotonic and the loop observes it at the next loop top.
    pub fn close(&mut self)
        ensures
            final(self)@ == with_closing(old(self)@),
    {
        self.closing = true;
        proof {
            assert(self@ =~= with_closing(old(self)@));
        }
    }

    /// Every sender into every lane is gone: once the lanes run dry the
    /// selector reports the channel set closed, which terminates the loop.
    pub fn drop_senders(&mut self)
        ensures
            final(self)@ == with_senders_dropped(old(self)@),
    {
        self.senders_dropped = true;
        proof {
            assert(self@ =~= with_senders_dropped(old(self)@));
        }
    }

    /// The owner's receiving end is gone: posts back to the owner now fail
    /// silently and are not retried.
    pub fn close_owner_channel(&mut self)
        ensures
            final(self)@ == with_owner_closed(old(self)@),
    {
        self.owner_open = false;
        proof {
            assert(self@ =~= with_owner_closed(old(self)@));
        }
    }

    /// The cooperative-interrupt predicate the script context polls during
    /// long executions: abort once the closing flag is observed true,
    /// continue otherwise.
    pub fn interrupt_check(&self) -> (r: InterruptDecision)
        ensures
            r == (if self@.closing {
                InterruptDecision::AbortScript
            } else {
                InterruptDecision::ContinueScript
            }),
    {
        if self.closing {
            InterruptDecision::AbortScript
        } else {
            InterruptDecision::ContinueScript
        }
    }

    /// The worker posts a message back to the owner. Best-effort: a closed
    /// owner channel swallows it.
    pub fn post_message_to_owner(&mut self, payload: u64) -> (delivered: bool)
        ensures
            delivered == old(self)@.owner_open,
            old(self)@.owner_open ==> final(self)@ == posted_owner(
                old(self)@,
                OwnerMsg::OutboundData(payload),
            ),
            !old(self)@.owner_open ==> final(self)@ == old(self)@,
    {
        if self.owner_open {
            self.owner_out.push(OwnerMsg::OutboundData(payload));
            proof {
                assert(self@ =~= posted_owner(old(self)@, OwnerMsg::OutboundData(payload)));
            }
            true
        } else {
            false
        }
    }

    /// Whether lane `l` can be serviced right now.
    fn lane_ready_at(&self, l: usize) -> (b: bool)
        requires
            l < 3,
        ensures
            b == self@.lane_ready(l as int),
    {
        if l == 0 {
            self.inbox.len() > 0
        } else if l == 1 {
            self.timers.len() > 0
        } else {
            self.debug_attached && self.debug.len() > 0
        }
    }

    /// Remove and return the front envelope of lane `l`, rotating the
    /// cursor past the lane just serviced.
    fn take_front(&mut self, l: usize) -> (m: MixedMsg)
        requires
            l < 3,
            old(self)@.lane_ready(l as int),
        ensures
            final(self)@ == popped(old(self)@, l as int),
            m == front_msg(old(self)@, l as int),
    {
        let m = if l == 0 {
            MixedMsg::FromWorker(self.inbox.remove(0))
        } else if l == 1 {
            MixedMsg::FromScheduler(self.timers.remove(0))
        } else {
            MixedMsg::FromDevtools(self.debug.remove(0))
        };
        self.cursor = if l >= 2 {
            0
        } else {
            l + 1
        };
        proof {
            assert(self@ =~= popped(old(self)@, l as int));
        }
        m
    }

    /// Mixed message selection: return one envelope from the first ready
    /// lane in rotation order starting at the cursor. When no lane is ready
    /// the state is untouched and the selector reports either that every
    /// sender is gone — unrecoverable — or that a real deployment would now
    /// block awaiting a delivery.
    pub fn receive_next(&mut self) -> (r: Selection)
        requires
            old(self)@.wf(),
        ensures
            final(self)@.wf(),
            pick(old(self)@) is None ==> final(self)@ == old(self)@ && r == (
            if old(self)@.senders_dropped {
                Selection::ChannelClosed
            } else {
                Selection::WouldBlock
            }),
            pick(old(self)@) matches Some(l) ==> final(self)@ == popped(old(self)@, l)
                && r == Selection::Pulled(front_msg(old(self)@, l)),
    {
        let c0 = self.cursor;
        if self.lane_ready_at(c0) {
            let m = self.take_front(c0);
            return Selection::Pulled(m);
        }
        let c1 = if c0 >= 2 { 0 } else { c0 + 1 };
        if self.lane_ready_at(c1) {
            let m = self.take_front(c1);
            return Selection::Pulled(m);
        }
        let c2 = if c1 >= 2 { 0 } else { c1 + 1 };
        if self.lane_ready_at(c2) {
            let m = self.take_front(c2);
            return Selection::Pulled(m);
        }
        if self.senders_dropped {
            Selection::ChannelClosed
        } else {
            Selection::WouldBlock
        }
    }

    /// Dispatch one envelope.
    ///
    /// An inbox or timer envelope first installs the targeted worker's
    /// identity and restores the prior value afterwards, also when the task
    /// surfaced an error — the contract says the identity stack is exactly
    /// what it was. A task's uncaught error becomes one error report through
    /// the owner channel, if it is still open. A timer fire from a foreign
    /// source dispatches nothing and records the protocol violation. A
    /// debug envelope is delegated, its reply channel passed through
    /// unchanged; unrecognized variants are logged and dropped, never fatal.
    pub fn handle_event(&mut self, msg: MixedMsg)
        ensures
            final(self)@ == dispatched(old(self)@, msg),
    {
        match msg {
            MixedMsg::FromWorker(im) => {
                let InboxMsg { target, msg: script } = im;
                self.identity.install(target);
                match script {
                    ScriptMsg::Task(t) => {
                        let TaskSpec { id, follow_ups, failure } = t;
                        let mut follow_ups = follow_ups;
                        match failure {
                            Option::Some(rec) => {
                                self.log.push(Event::TaskFailed(id));
                                self.micro.append(&mut follow_ups);
                                if self.owner_open {
                                    self.owner_out.push(OwnerMsg::ErrorReport(rec));
                                }
                            },
                            Option::None => {
                                self.log.push(Event::TaskDone(id));
                                self.micro.append(&mut follow_ups);
                            },
                        }
                    },
                    ScriptMsg::InboundData(p) => {
                        self.log.push(Event::MessageEvent(p));
                    },
                }
                self.identity.restore();
            },
            MixedMsg::FromScheduler(t) => {
                if t.source == TimerSource::FromWorkerSource {
                    self.identity.install(t.target);
                    self.log.push(Event::TimerCallback(t.id));
                    self.identity.restore();
                } else {
                    self.violation = true;
                }
            },
            MixedMsg::FromDevtools(d) => match d {
                DebugMsg::EvaluateScript { pipeline, source_text: _, reply } => {
                    self.log.push(Event::DebugEvaluated { pipeline, reply });
                },
                DebugMsg::GetCachedMessages { pipeline, filter_mask, reply } => {
                    self.log.push(Event::DebugCachedMessages { pipeline, filter_mask, reply });
                },
                DebugMsg::SetLiveNotifications { pipeline, enabled } => {
                    self.log.push(Event::DebugLiveNotifications { pipeline, enabled });
                },
                DebugMsg::Unrecognized { tag } => {
                    self.log.push(Event::DebugIgnored { tag });
                },
            },
        }
        proof {
            assert(self@ =~= dispatched(old(self)@, msg));
        }
    }

    /// The microtask checkpoint: run every queued continuation, in queue
    /// order, before the next receive. Each appends its event to the log;
    /// the queue is empty afterwards.
    pub fn perform_microtask_checkpoint(&mut self)
        ensures
            final(self)@ == drained(old(self)@),
    {
        let ghost m0 = self@;
        let mut i: usize = 0;
        while i < self.micro.len()
            invariant
                i <= self.micro.len(),
                self@ == (EngineModel {
                    log: m0.log + micro_events(m0.micro.take(i as int)),
                    ..m0
                }),
            decreases self.micro.len() - i,
        {
            let id = self.micro[i];
            self.log.push(Event::Microtask(id));
            i = i + 1;
            proof {
                assert(micro_events(m0.micro.take(i as int)) =~= micro_events(
                    m0.micro.take(i - 1),
                ).push(Event::Microtask(id)));
                assert(self@ =~= (EngineModel {
                    log: m0.log + micro_events(m0.micro.take(i as int)),
                    ..m0
                }));
            }
        }
        self.micro.clear();
        proof {
            assert(m0.micro.take(m0.micro.len() as int) =~= m0.micro);
            assert(self@ =~= drained(m0));
        }
    }

    /// One iteration of the processing loop, exactly as [`stepped`] reads:
    /// observe the closing flag at the loop top, then a recorded violation,
    /// then select; dispatch the selected envelope and complete the
    /// microtask checkpoint before anything else can be received. A
    /// violating envelope terminates at once.
    pub fn step(&mut self) -> (st: StepStatus)
        requires
            old(self)@.wf(),
        ensures
            final(self)@.wf(),
            final(self)@ == stepped(old(self)@).0,
            st == stepped(old(self)@).1,
    {
        if self.closing {
            return StepStatus::Exited(ExitReason::Closed);
        }
        if self.violation {
            return StepStatus::Exited(ExitReason::ProtocolViolation);
        }
        match self.receive_next() {
            Selection::ChannelClosed => StepStatus::Exited(ExitReason::ChannelClosed),
            Selection::WouldBlock => StepStatus::Idle,
            Selection::Pulled(m) => {
                self.handle_event(m);
                if self.violation {
                    StepStatus::Exited(ExitReason::ProtocolViolation)
                } else {
                    self.perform_microtask_checkpoint();
                    StepStatus::Progressed
                }
            },
        }
    }

    /// Run the processing loop until it terminates or every serviceable
    /// lane is empty. The final state and the outcome are exactly what
    /// [`run_model`] assigns to the starting state.
    pub fn run(&mut self) -> (out: RunOutcome)
        requires
            old(self)@.wf(),
        ensures
            final(self)@.wf(),
            final(self)@ == run_model(old(self)@).0,
            out == run_model(old(self)@).1,
    {
        let ghost m0 = self@;
        loop
            invariant
                m0 == old(self)@,
                self@.wf(),
                m0.wf(),
                run_model(m0) == run_model(self@),
            decreases self@.pending(),
        {
            let ghost pre = self@;
            let st = self.step();
            match st {
                StepStatus::Progressed => {
                    proof {
                        lemma_stepped_progress_consumes(pre);
                    }
                },
                StepStatus::Idle => {
                    proof {
                        assert(run_model(pre) == (stepped(pre).0, RunOutcome::Idle));
                    }
                    return RunOutcome::Idle;
                },
                StepStatus::Exited(reason) => {
                    return RunOutcome::Exited(reason);
                },
            }
        }
    }

    /// The dispatch log so far.
    pub fn log(&self) -> (r: &Vec<Event>)
        ensures
            r@ == self@.log,
    {
        &self.log
    }

    /// Everything posted back through the owner channel so far.
    pub fn owner_posts(&self) -> (r: &Vec<OwnerMsg>)
        ensures
            r@ == self@.owner_out,
    {
        &self.owner_out
    }

    /// The address of the worker this engine runs.
    pub fn addr(&self) -> (r: u64)
        ensures
            r == self@.addr,
    {
        self.addr
    }

    /// Whether the closing flag has been observed set.
    pub fn is_closing(&self) -> (b: bool)
        ensures
            b == self@.closing,
    {
        self.closing
    }

    /// Whether a protocol violation has been recorded.
    pub fn violation_observed(&self) -> (b: bool)
        ensures
            b == self@.violation,
    {
        self.violation
    }

    /// The currently installed worker identity, if a dispatch is in scope.
    pub fn current_identity(&self) -> (r: Option<u64>)
        ensures
            r == (if self@.identity.len() == 0 {
                Option::<u64>::None
            } else {
                Option::Some(self@.identity.last())
            }),
    {
        self.identity.current()
    }

    /// How many envelopes wait in the inbox, timer and debug lanes.
    pub fn lane_depths(&self) -> (r: (usize, usize, usize))
        ensures
            r.0 == self@.inbox.len(),
            r.1 == self@.timers.len(),
            r.2 == self@.debug.len(),
    {
        (self.inbox.len(), self.timers.len(), self.debug.len())
    }
}

} // verus!
