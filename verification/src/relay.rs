//! The timer relay.
//!
//! Fire notifications cross a scheduler boundary whose transport may retry,
//! so the same notification can arrive more than once. The relay converts
//! each arriving notification into at most one timer-lane envelope: the
//! first arrival of a fire id is delivered, every later arrival of the same
//! id is dropped. This gives the engine exactly-once, non-duplicating
//! delivery of each fire notification.

use vstd::prelude::*;
use crate::msgs::TimerMsg;

verus! {

/// What handing a fire to the relay puts into the timer lane: the fire
/// itself on its first arrival, nothing on a redelivery.
pub open spec fn deliver_out(seen: Seq<u64>, fire: TimerMsg) -> Option<TimerMsg> {
    if seen.contains(fire.id) {
        None
    } else {
        Some(fire)
    }
}

/// The relay's record of delivered fire ids after it handled one fire.
pub open spec fn deliver_seen(seen: Seq<u64>, fire: TimerMsg) -> Seq<u64> {
    if seen.contains(fire.id) {
        seen
    } else {
        seen.push(fire.id)
    }
}

/// The relay: remembers which fire ids it has already delivered.
pub struct TimerRelay {
    seen: Vec<u64>,
}

impl View for TimerRelay {
    type V = Seq<u64>;

    closed spec fn view(&self) -> Seq<u64> {
        self.seen@
    }
}

impl TimerRelay {
    /// A fresh relay: nothing delivered yet.
    pub fn new() -> (r: TimerRelay)
        ensures
            r@ == Seq::<u64>::empty(),
    {
        TimerRelay { seen: Vec::new() }
    }

    /// Handle one arriving fire notification: deliver it on first arrival,
    /// drop it on redelivery.
    pub fn deliver(&mut self, fire: TimerMsg) -> (out: Option<TimerMsg>)
        ensures
            out == deliver_out(old(self)@, fire),
            final(self)@ == deliver_seen(old(self)@, fire),
    {
        if contains_id(&self.seen, fire.id) {
            None
        } else {
            self.seen.push(fire.id);
            Some(fire)
        }
    }
}

/// Whether `id` occurs in `v`.
fn contains_id(v: &Vec<u64>, id: u64) -> (r: bool)
    ensures
        r == v@.contains(id),
{
    let mut i: usize = 0;
    while i < v.len()
        invariant
            i <= v.len(),
            forall|j: int| 0 <= j < i ==> v@[j] != id,
        decreases v.len() - i,
    {
        if v[i] == id {
            return true;
        }
        i += 1;
    }
    false
}

/// Exactly-once delivery: once the relay has delivered a fire id, a
/// redelivered notification with the same id delivers nothing.
pub proof fn lemma_relay_exactly_once(seen: Seq<u64>, first: TimerMsg, again: TimerMsg)
    requires
        again.id == first.id,
    ensures
        deliver_out(deliver_seen(seen, first), again) is None,
{
    if !seen.contains(first.id) {
        assert(seen.push(first.id)[seen.len() as int] == first.id);
    }
}

} // verus!
