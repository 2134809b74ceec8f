//! The scoped "current worker" identity cell.
//!
//! Before dispatching an envelope that is about a particular worker, the
//! engine installs that worker's address as the current identity, and
//! restores the prior value when the dispatch ends — whether it completed or
//! surfaced an error. The cell keeps the saved values as a stack, so nested
//! or re-entrant dispatches also restore correctly: each scope pops exactly
//! the value it pushed. At any instant the current identity is the top of
//! the stack — at most one address — or nothing outside every dispatch.

use vstd::prelude::*;

verus! {

/// The identity cell: a stack of installed worker addresses, top last.
pub struct IdentityCell {
    stack: Vec<u64>,
}

impl View for IdentityCell {
    type V = Seq<u64>;

    closed spec fn view(&self) -> Seq<u64> {
        self.stack@
    }
}

impl IdentityCell {
    /// A fresh cell: no identity installed.
    pub fn new() -> (c: IdentityCell)
        ensures
            c@ == Seq::<u64>::empty(),
    {
        IdentityCell { stack: Vec::new() }
    }

    /// Enter a dispatch scope: save the prior identity and make `addr` the
    /// current one.
    pub fn install(&mut self, addr: u64)
        ensures
            final(self)@ == old(self)@.push(addr),
    {
        self.stack.push(addr);
    }

    /// Leave a dispatch scope: discard the current identity and make the
    /// saved prior value current again.
    pub fn restore(&mut self)
        requires
            old(self)@.len() > 0,
        ensures
            final(self)@ == old(self)@.drop_last(),
    {
        let _ = self.stack.pop();
    }

    /// The address currently installed, if any.
    pub fn current(&self) -> (r: Option<u64>)
        ensures
            r == (if self@.len() == 0 {
                Option::<u64>::None
            } else {
                Option::Some(self@.last())
            }),
    {
        if self.stack.len() == 0 {
            None
        } else {
            Some(self.stack[self.stack.len() - 1])
        }
    }

    /// How many dispatch scopes are open.
    pub fn depth(&self) -> (n: usize)
        ensures
            n == self@.len(),
    {
        self.stack.len()
    }
}

/// After a dispatch — success or failure — the identity cell holds exactly
/// its pre-dispatch value: installing an address and then restoring leaves
/// the stack as it was.
pub proof fn lemma_guard_restores(stack: Seq<u64>, addr: u64)
    ensures
        stack.push(addr).drop_last() == stack,
{
    assert(stack.push(addr).drop_last() =~= stack);
}

/// Re-entrant dispatches restore correctly through stack discipline: the
/// inner scope's restore re-installs the outer identity, and the outer
/// scope's restore then re-installs the original value.
pub proof fn lemma_nested_guards_restore(stack: Seq<u64>, outer: u64, inner: u64)
    ensures
        stack.push(outer).push(inner).drop_last() == stack.push(outer),
        stack.push(outer).push(inner).drop_last().drop_last() == stack,
{
    lemma_guard_restores(stack.push(outer), inner);
    lemma_guard_restores(stack, outer);
}

} // verus!
