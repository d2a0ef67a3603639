//! A dynamic borrow-flag guard for the host's shared data.
//!
//! Host closures invoked from deep inside guest execution may need to
//! re-borrow the same shared data a calling frame higher up is already
//! holding. There is no real concurrency, so the guard is not a lock: it
//! counts shared borrows and flags the exclusive one, grants a borrow
//! exactly when the discipline allows it, and fails loudly — by refusing —
//! instead of deadlocking or corrupting state. Two exclusive borrows are
//! never alive at once, and shared borrows may coexist.

use vstd::prelude::*;

verus! {

/// The guard over one piece of shared data: how many shared borrows are
/// alive, and whether the exclusive one is.
pub struct BorrowFlag {
    shared: usize,
    exclusive: bool,
}

impl BorrowFlag {
    /// The number of live shared borrows.
    pub closed spec fn spec_shared(&self) -> nat {
        self.shared as nat
    }

    /// Whether the exclusive borrow is live.
    pub closed spec fn spec_exclusive(&self) -> bool {
        self.exclusive
    }

    /// The discipline: the exclusive borrow never coexists with any other
    /// borrow.
    pub open spec fn wf(&self) -> bool {
        self.spec_exclusive() ==> self.spec_shared() == 0
    }

    /// A guard with no live borrow.
    pub fn new() -> (r: BorrowFlag)
        ensures
            r.wf(),
            r.spec_shared() == 0,
            !r.spec_exclusive(),
    {
        BorrowFlag { shared: 0, exclusive: false }
    }

    /// Grants a shared borrow exactly when the exclusive one is not alive
    /// (and the count can still grow).
    pub fn try_borrow(&mut self) -> (granted: bool)
        requires
            old(self).wf(),
        ensures
            final(self).wf(),
            granted <==> (!old(self).spec_exclusive() && old(self).spec_shared() < usize::MAX),
            granted ==> final(self).spec_shared() == old(self).spec_shared() + 1 && !final(
                self).spec_exclusive(),
            !granted ==> *final(self) == *old(self),
    {
        if !self.exclusive && self.shared < usize::MAX {
            self.shared = self.shared + 1;
            true
        } else {
            false
        }
    }

    /// Grants the exclusive borrow exactly when no borrow at all is alive.
    pub fn try_borrow_mut(&mut self) -> (granted: bool)
        requires
            old(self).wf(),
        ensures
            final(self).wf(),
            granted <==> (!old(self).spec_exclusive() && old(self).spec_shared() == 0),
            granted ==> final(self).spec_exclusive() && final(self).spec_shared() == 0,
            !granted ==> *final(self) == *old(self),
    {
        if !self.exclusive && self.shared == 0 {
            self.exclusive = true;
            true
        } else {
            false
        }
    }

    /// Ends one shared borrow.
    pub fn release(&mut self)
        requires
            old(self).wf(),
            old(self).spec_shared() > 0,
        ensures
            final(self).wf(),
            final(self).spec_shared() == old(self).spec_shared() - 1,
            final(self).spec_exclusive() == old(self).spec_exclusive(),
    {
        self.shared = self.shared - 1;
    }

    /// Ends the exclusive borrow.
    pub fn release_mut(&mut self)
        requires
            old(self).wf(),
            old(self).spec_exclusive(),
        ensures
            final(self).wf(),
            final(self).spec_shared() == 0,
            !final(self).spec_exclusive(),
    {
        self.exclusive = false;
    }
}

} // verus!
