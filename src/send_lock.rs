use vstd::prelude::*;
use crate::error::MultiplexError;

verus! {

/// Total of a sequence of byte counts.
pub open spec fn total(ns: Seq<u64>) -> nat
    decreases ns.len(),
{
    if ns.len() == 0 {
        0
    } else {
        total(ns.drop_last()) + ns.last() as nat
    }
}

/// Whether a reservation of `n` bytes succeeds on a gate with `available`
/// credit and the given closed flag.
pub open spec fn reserve_ok(available: nat, closed: bool, n: nat) -> bool {
    !closed && n <= available
}

/// Credit left and outcome of each call after reserving each of `ns` in turn
/// on an open gate that starts with `available` credit.
pub open spec fn reserve_run(available: nat, ns: Seq<u64>) -> (nat, Seq<bool>)
    decreases ns.len(),
{
    if ns.len() == 0 {
        (available, Seq::empty())
    } else {
        let (left, oks) = reserve_run(available, ns.drop_last());
        let n = ns.last() as nat;
        if reserve_ok(left, false, n) {
            ((left - n) as nat, oks.push(true))
        } else {
            (left, oks.push(false))
        }
    }
}

/// Sends within credit never wait: when the bytes of a sequence of
/// reservations add up to no more than the available credit, every one of
/// them succeeds and exactly their total is used up.
pub proof fn lemma_reserves_within_credit(available: nat, ns: Seq<u64>)
    requires
        total(ns) <= available,
    ensures
        reserve_run(available, ns).0 == available - total(ns),
        reserve_run(available, ns).1.len() == ns.len(),
        forall|i: int| 0 <= i < ns.len() ==> #[trigger] reserve_run(available, ns).1[i],
    decreases ns.len(),
{
    if ns.len() > 0 {
        lemma_reserves_within_credit(available, ns.drop_last());
        let prev = reserve_run(available, ns.drop_last());
        assert forall|i: int| 0 <= i < ns.len() implies #[trigger] reserve_run(available, ns).1[i] by {
            if i < ns.len() - 1 {
                assert(prev.1[i]);
            }
        }
    }
}

/// Exhausted credit makes a send wait, and a grant that covers it lets the
/// same reservation through.
pub proof fn lemma_grant_unblocks(available: nat, n: nat, grant: nat)
    requires
        available < n,
        n <= available + grant,
    ensures
        !reserve_ok(available, false, n),
        reserve_ok(available + grant, false, n),
{
}

/// Flow-control gate of one channel's sending side: the credit the remote
/// receiver has granted and not yet used up.
pub struct SendLock {
    available: u64,
    closed: bool,
}

impl SendLock {
    pub closed spec fn spec_available(&self) -> nat {
        self.available as nat
    }

    pub closed spec fn spec_closed(&self) -> bool {
        self.closed
    }

    /// An open gate with `initial` bytes of credit.
    pub fn new(initial: u64) -> (r: Self)
        ensures
            r.spec_available() == initial,
            !r.spec_closed(),
    {
        SendLock { available: initial, closed: false }
    }

    pub fn available(&self) -> (r: u64)
        ensures
            r == self.spec_available(),
    {
        self.available
    }

    pub fn is_closed(&self) -> (r: bool)
        ensures
            r == self.spec_closed(),
    {
        self.closed
    }

    /// Reserves `n` bytes of credit when the lock is open and has that
    /// much credit left; otherwise changes nothing and returns false.
    pub fn try_reserve(&mut self, n: u64) -> (r: bool)
        ensures
            r == reserve_ok(old(self).spec_available(), old(self).spec_closed(), n as nat),
            final(self).spec_closed() == old(self).spec_closed(),
            !r ==> *final(self) == *old(self),
            final(self).spec_available() == if r {
                old(self).spec_available() - n
            } else {
                old(self).spec_available() as int
            },
    {
        if !self.closed && n <= self.available {
            self.available = self.available - n;
            true
        } else {
            false
        }
    }

    /// Adds credit granted by the remote receiver. Credit that would
    /// overflow the counter is a protocol violation and changes nothing.
    pub fn grant(&mut self, n: u64) -> (r: Result<(), MultiplexError>)
        ensures
            final(self).spec_closed() == old(self).spec_closed(),
            old(self).spec_available() + n <= u64::MAX ==> {
                &&& r is Ok
                &&& final(self).spec_available() == old(self).spec_available() + n
            },
            old(self).spec_available() + n > u64::MAX ==> {
                &&& r == Err::<(), MultiplexError>(MultiplexError::Protocol)
                &&& final(self).spec_available() == old(self).spec_available()
            },
    {
        match self.available.checked_add(n) {
            Some(v) => {
                self.available = v;
                Ok(())
            },
            None => Err(MultiplexError::Protocol),
        }
    }

    /// Closes the lock, so that every later reservation fails.
    pub fn close(&mut self)
        ensures
            final(self).spec_closed(),
            final(self).spec_available() == old(self).spec_available(),
    {
        self.closed = true;
    }
}

} // verus!
