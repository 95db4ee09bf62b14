//! The lock on the serial line. At most one operation holds it; one that
//! finds it held is turned away at once and never waits.
//!
//! Taking the lock gives a guard. The lock knows the guard of its holder
//! by a ticket and is given back with that guard only. Each lock counts its
//! own tickets, and no contract says what a ticket is: a guard can be shown
//! to hold a lock only by having come from that lock's `try_acquire`.

use vstd::prelude::*;

verus! {

/// The lock that stands for "the serial line is in use".
#[derive(Debug)]
pub struct BusLock {
    /// The ticket of the guard that holds the lock.
    holder: Option<u64>,
    /// The ticket that was handed out last.
    issued: u64,
}

/// Proof of having taken a lock. It is handed out by `try_acquire` only,
/// cannot be copied, and is used up by `release`.
#[derive(Debug)]
pub struct BusGuard {
    ticket: u64,
}

impl View for BusGuard {
    type V = u64;

    /// The ticket by which the lock knows this guard.
    closed spec fn view(&self) -> u64 {
        self.ticket
    }
}

impl BusLock {
    /// The ticket of the guard that holds the lock, if any does.
    pub closed spec fn holder(&self) -> Option<u64> {
        self.holder
    }

    /// True while an operation holds the lock.
    pub open spec fn is_held(&self) -> bool {
        self.holder() is Some
    }

    /// True where `guard` is the guard of the holder of this lock.
    pub open spec fn held_by(&self, guard: &BusGuard) -> bool {
        self.holder() == Some(guard@)
    }

    /// A lock that nobody holds.
    pub fn new() -> (lock: BusLock)
        ensures
            lock.holder() is None,
    {
        BusLock { holder: None, issued: 0 }
    }

    /// Tells whether an operation holds the lock.
    pub fn held(&self) -> (h: bool)
        ensures
            h == self.is_held(),
    {
        self.holder.is_some()
    }

    /// Tells whether `guard` is the guard of the holder of this lock.
    pub fn holds(&self, guard: &BusGuard) -> (b: bool)
        ensures
            b == self.held_by(guard),
    {
        match self.holder {
            Some(ticket) => ticket == guard.ticket,
            None => false,
        }
    }

    /// Takes the lock if it is free; the guard that comes back is then the
    /// guard of its holder. A held lock stays with its holder and the
    /// caller gets nothing.
    pub fn try_acquire(&mut self) -> (guard: Option<BusGuard>)
        ensures
            guard is Some <==> !old(self).is_held(),
            guard matches Some(g) ==> final(self).held_by(&g),
            guard is None ==> final(self).holder() == old(self).holder(),
    {
        if self.holder.is_some() {
            None
        } else {
            let ticket = self.issued.wrapping_add(1);
            self.issued = ticket;
            self.holder = Some(ticket);
            Some(BusGuard { ticket })
        }
    }

    /// Gives the lock back. Only the guard of the holder can do so.
    pub fn release(&mut self, guard: BusGuard)
        requires
            old(self).held_by(&guard),
        ensures
            final(self).holder() is None,
    {
        let BusGuard { ticket: _ } = guard;
        self.holder = None;
    }
}

} // verus!
