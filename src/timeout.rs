use vstd::prelude::*;

verus! {

/// One armed deadline: the handle that names it, the key it reports when
/// it fires, and the time (in milliseconds) at which it fires.
#[derive(Clone, Copy, Debug, PartialEq, Eq, Structural)]
pub struct Timer {
    pub handle: u64,
    pub key: u32,
    pub deadline: u64,
}

/// Timers that are not the one with handle `h`.
pub open spec fn not_handle(h: u64) -> spec_fn(Timer) -> bool {
    |t: Timer| t.handle != h
}

/// Timers that are still pending at time `now`.
pub open spec fn pending_at(now: u64) -> spec_fn(Timer) -> bool {
    |t: Timer| t.deadline > now
}

/// Timers that are due at time `now`.
pub open spec fn due_at(now: u64) -> spec_fn(Timer) -> bool {
    |t: Timer| t.deadline <= now
}

/// The key a timer reports.
pub open spec fn key_of(t: Timer) -> u32 {
    t.key
}

/// Deadlines for operations that await the peer, such as an open request
/// waiting for confirmation. Time is a count of milliseconds supplied by the
/// caller.
pub struct TimeoutTracker {
    timers: Vec<Timer>,
    next: u64,
}

impl TimeoutTracker {
    /// The armed timers, oldest first.
    pub closed spec fn timers(&self) -> Seq<Timer> {
        self.timers@
    }

    /// Every handle below this one has been given out.
    pub closed spec fn next_handle(&self) -> u64 {
        self.next
    }

    pub closed spec fn wf(&self) -> bool {
        forall|i: int| 0 <= i < self.timers@.len() ==> #[trigger] self.timers@[i].handle < self.next
    }

    pub fn new() -> (r: Self)
        ensures
            r.wf(),
            r.timers() == Seq::<Timer>::empty(),
    {
        TimeoutTracker { timers: Vec::new(), next: 0 }
    }

    /// Arms a timer for `key` that fires `duration` milliseconds after
    /// `now` (at the largest time, if that overflows). The handle is new:
    /// no armed timer has it. `None` once all handles are used up.
    pub fn arm(&mut self, key: u32, now: u64, duration: u64) -> (r: Option<u64>)
        requires
            old(self).wf(),
        ensures
            final(self).wf(),
            old(self).next_handle() == u64::MAX ==> r is None && *final(self) == *old(self),
            old(self).next_handle() < u64::MAX ==> {
                &&& r matches Some(h) && final(self).timers() == old(self).timers().push(
                    Timer { handle: h, key, deadline: if now + duration <= u64::MAX { (now + duration) as u64 } else { u64::MAX } },
                ) && forall|i: int| 0 <= i < old(self).timers().len() ==> #[trigger] old(self).timers()[i].handle != h
            },
    {
        if self.next == u64::MAX {
            return None;
        }
        let h = self.next;
        let deadline = now.saturating_add(duration);
        self.timers.push(Timer { handle: h, key, deadline });
        self.next = h + 1;
        Some(h)
    }

    /// Disarms the timer with handle `h`; the result tells whether one was
    /// armed.
    pub fn cancel(&mut self, h: u64) -> (r: bool)
        requires
            old(self).wf(),
        ensures
            final(self).wf(),
            final(self).next_handle() == old(self).next_handle(),
            final(self).timers() == old(self).timers().filter(not_handle(h)),
            r == exists|i: int| 0 <= i < old(self).timers().len() && #[trigger] old(self).timers()[i].handle == h,
    {
        let ghost all = self.timers@;
        let mut kept: Vec<Timer> = Vec::new();
        let mut found = false;
        let n = self.timers.len();
        let mut i: usize = 0;
        assert(all.take(0) =~= Seq::<Timer>::empty());
        proof {
            reveal(Seq::filter);
        }
        while i < n
            invariant
                n == all.len(),
                self.timers@ == all,
                i <= n,
                kept@ == all.take(i as int).filter(not_handle(h)),
                found == exists|j: int| 0 <= j < i && #[trigger] all[j].handle == h,
                forall|j: int| 0 <= j < kept@.len() ==> #[trigger] kept@[j].handle < self.next,
                self.wf(),
            decreases n - i,
        {
            let t = self.timers[i];
            assert(all.take(i + 1).drop_last() =~= all.take(i as int));
            assert(all.take(i + 1).last() == t);
            assert(all.take(i + 1).len() > 0);
            proof {
                reveal(Seq::filter);
            }
            assert(all.take(i + 1).filter(not_handle(h)) == if not_handle(h)(t) {
                all.take(i as int).filter(not_handle(h)).push(t)
            } else {
                all.take(i as int).filter(not_handle(h))
            });
            if t.handle != h {
                kept.push(t);
            } else {
                found = true;
            }
            i = i + 1;
        }
        assert(all.take(n as int) =~= all);
        proof {
            reveal(Seq::filter);
        }
        self.timers = kept;
        found
    }

    /// Removes the timers whose deadline is at or before `now` and returns
    /// their keys, oldest first; the other timers stay armed in order.
    pub fn expire(&mut self, now: u64) -> (r: Vec<u32>)
        requires
            old(self).wf(),
        ensures
            final(self).wf(),
            final(self).next_handle() == old(self).next_handle(),
            final(self).timers() == old(self).timers().filter(pending_at(now)),
            r@ == old(self).timers().filter(due_at(now)).map_values(|t: Timer| key_of(t)),
    {
        let ghost all = self.timers@;
        let mut kept: Vec<Timer> = Vec::new();
        let mut fired: Vec<u32> = Vec::new();
        let n = self.timers.len();
        let mut i: usize = 0;
        assert(all.take(0) =~= Seq::<Timer>::empty());
        proof {
            reveal(Seq::filter);
        }
        while i < n
            invariant
                n == all.len(),
                self.timers@ == all,
                i <= n,
                kept@ == all.take(i as int).filter(pending_at(now)),
                fired@ == all.take(i as int).filter(due_at(now)).map_values(|t: Timer| key_of(t)),
                forall|j: int| 0 <= j < kept@.len() ==> #[trigger] kept@[j].handle < self.next,
                self.wf(),
            decreases n - i,
        {
            let t = self.timers[i];
            assert(all.take(i + 1).drop_last() =~= all.take(i as int));
            assert(all.take(i + 1).last() == t);
            assert(all.take(i + 1).len() > 0);
            proof {
                reveal(Seq::filter);
            }
            assert(all.take(i + 1).filter(pending_at(now)) == if pending_at(now)(t) {
                all.take(i as int).filter(pending_at(now)).push(t)
            } else {
                all.take(i as int).filter(pending_at(now))
            });
            assert(all.take(i + 1).filter(due_at(now)) == if due_at(now)(t) {
                all.take(i as int).filter(due_at(now)).push(t)
            } else {
                all.take(i as int).filter(due_at(now))
            });
            let ghost before = all.take(i as int).filter(due_at(now));
            if t.deadline > now {
                kept.push(t);
            } else {
                fired.push(t.key);
                assert(before.push(t).map_values(|t: Timer| key_of(t)) =~= before.map_values(|t: Timer| key_of(t)).push(t.key));
            }
            i = i + 1;
        }
        assert(all.take(n as int) =~= all);
        proof {
            reveal(Seq::filter);
        }
        self.timers = kept;
        fired
    }
}

} // verus!
