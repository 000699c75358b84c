use vstd::prelude::*;

verus! {

/// Allocation failed because every port below the limit is live.
#[derive(Clone, Copy, Debug, PartialEq, Eq, Structural)]
pub enum AllocError {
    Exhausted,
}

/// The lowest port below `limit` that is not live, if any.
pub open spec fn lowest_free(live: Set<u32>, limit: u32) -> Option<u32> {
    if exists|p: u32| p < limit && !live.contains(p) && forall|q: u32| q < p ==> live.contains(q) {
        Some(choose|p: u32| p < limit && !live.contains(p) && forall|q: u32| q < p ==> live.contains(q))
    } else {
        None
    }
}

/// One operation on a port allocator: hand out a port, or give one back.
pub enum PortOp {
    Allocate,
    Release(u32),
}

/// The live ports after `op`, as `allocate` and `release` change them.
pub open spec fn live_after(live: Set<u32>, limit: u32, op: PortOp) -> Set<u32> {
    match op {
        PortOp::Allocate => match lowest_free(live, limit) {
            Some(p) => live.insert(p),
            None => live,
        },
        PortOp::Release(p) => live.remove(p),
    }
}

/// The ports held by users after `op`: an allocated port joins them, a
/// released one leaves them once.
pub open spec fn held_after(held: Seq<u32>, live: Set<u32>, limit: u32, op: PortOp) -> Seq<u32> {
    match op {
        PortOp::Allocate => match lowest_free(live, limit) {
            Some(p) => held.push(p),
            None => held,
        },
        PortOp::Release(p) => held.remove_value(p),
    }
}

/// The live ports and the held ports after running `ops` on a fresh
/// allocator with the given limit.
pub open spec fn run_ports(limit: u32, ops: Seq<PortOp>) -> (Set<u32>, Seq<u32>)
    decreases ops.len(),
{
    if ops.len() == 0 {
        (Set::empty(), Seq::empty())
    } else {
        let (live, held) = run_ports(limit, ops.drop_last());
        (live_after(live, limit, ops.last()), held_after(held, live, limit, ops.last()))
    }
}

/// Allocator uniqueness: after any sequence of allocations and releases, no
/// port is held twice, and the held ports are exactly the live ones. So no
/// two concurrently live channels share a port.
pub proof fn lemma_ports_unique(limit: u32, ops: Seq<PortOp>)
    ensures
        run_ports(limit, ops).1.no_duplicates(),
        forall|p: u32| run_ports(limit, ops).0.contains(p) <==> run_ports(limit, ops).1.contains(p),
    decreases ops.len(),
{
    if ops.len() > 0 {
        lemma_ports_unique(limit, ops.drop_last());
        let (live, held) = run_ports(limit, ops.drop_last());
        match ops.last() {
            PortOp::Allocate => {
                match lowest_free(live, limit) {
                    Some(p) => {
                        let h = held.push(p);
                        assert(!held.contains(p));
                        assert forall|i: int, j: int| 0 <= i < h.len() && 0 <= j < h.len() && i != j
                            implies h[i] != h[j] by {
                            if i == held.len() as int {
                                assert(held.contains(h[j]));
                            } else if j == held.len() as int {
                                assert(held.contains(h[i]));
                            }
                        }
                        assert forall|q: u32| live.insert(p).contains(q) <==> h.contains(q) by {
                            if h.contains(q) && q != p {
                                let k = choose|k: int| 0 <= k < h.len() && h[k] == q;
                                assert(held[k] == q);
                            }
                            if held.contains(q) {
                                let k = choose|k: int| 0 <= k < held.len() && held[k] == q;
                                assert(h[k] == q);
                            }
                            if q == p {
                                assert(h[held.len() as int] == p);
                            }
                        }
                    },
                    None => {},
                }
            },
            PortOp::Release(p) => {
                held.index_of_first_ensures(p);
                match held.index_of_first(p) {
                    Some(k) => {
                        let h = held.remove(k);
                        assert forall|i: int, j: int| 0 <= i < h.len() && 0 <= j < h.len() && i != j
                            implies h[i] != h[j] by {
                            let i0 = if i < k { i } else { i + 1 };
                            let j0 = if j < k { j } else { j + 1 };
                            assert(h[i] == held[i0] && h[j] == held[j0]);
                        }
                        assert forall|q: u32| live.remove(p).contains(q) <==> h.contains(q) by {
                            if h.contains(q) {
                                let m = choose|m: int| 0 <= m < h.len() && h[m] == q;
                                let m0 = if m < k { m } else { m + 1 };
                                assert(held[m0] == q);
                                assert(m0 != k);
                            }
                            if live.remove(p).contains(q) {
                                assert(held.contains(q));
                                let m = choose|m: int| 0 <= m < held.len() && held[m] == q;
                                assert(m != k);
                                if m < k {
                                    assert(h[m] == q);
                                } else {
                                    assert(h[m - 1] == q);
                                }
                            }
                        }
                    },
                    None => {
                        assert(live.remove(p) =~= live);
                    },
                }
            },
        }
    }
}

/// Hands out channel ports, each unique among the live ones, and takes them
/// back for reuse. The lowest free port is always chosen.
pub struct NumberAllocator {
    limit: u32,
    in_use: Vec<bool>,
}

impl NumberAllocator {
    /// Ports currently handed out.
    pub closed spec fn live(&self) -> Set<u32> {
        Set::new(|p: u32| (p as int) < self.in_use@.len() && self.in_use@[p as int])
    }

    /// Number of ports available in total; ports range over `0..limit`.
    pub closed spec fn spec_limit(&self) -> u32 {
        self.limit
    }

    pub closed spec fn wf(&self) -> bool {
        self.in_use@.len() <= self.limit
    }

    /// An allocator over the ports `0..limit`, none of them live.
    pub fn new(limit: u32) -> (r: Self)
        ensures
            r.wf(),
            r.live() == Set::<u32>::empty(),
            r.spec_limit() == limit,
    {
        let r = NumberAllocator { limit, in_use: Vec::new() };
        assert(r.live() =~= Set::<u32>::empty());
        r
    }

    pub fn limit(&self) -> (r: u32)
        ensures
            r == self.spec_limit(),
    {
        self.limit
    }

    /// Whether `port` is currently handed out.
    pub fn is_live(&self, port: u32) -> (r: bool)
        ensures
            r == self.live().contains(port),
    {
        (port as usize) < self.in_use.len() && self.in_use[port as usize]
    }

    /// Hands out the lowest port that is not live, or fails when all ports
    /// below the limit are live.
    pub fn allocate(&mut self) -> (r: Result<u32, AllocError>)
        requires
            old(self).wf(),
        ensures
            final(self).wf(),
            final(self).spec_limit() == old(self).spec_limit(),
            match r {
                Ok(p) => {
                    &&& lowest_free(old(self).live(), old(self).spec_limit()) == Some(p)
                    &&& !old(self).live().contains(p)
                    &&& forall|q: u32| q < p ==> old(self).live().contains(q)
                    &&& p < old(self).spec_limit()
                    &&& final(self).live() == old(self).live().insert(p)
                },
                Err(_) => {
                    &&& lowest_free(old(self).live(), old(self).spec_limit()) is None
                    &&& forall|p: u32| p < old(self).spec_limit() ==> old(self).live().contains(p)
                    &&& final(self).live() == old(self).live()
                    &&& *final(self) == *old(self)
                },
            },
    {
        let ghost live0 = self.live();
        let i = self.first_free();
        if i < self.in_use.len() {
            let p = i as u32;
            assert(!live0.contains(p));
            self.in_use.set(i, true);
            assert(self.live() =~= live0.insert(p));
            proof { self.lemma_lowest_is(live0, p); }
            Ok(p)
        } else if i < self.limit as usize {
            let p = i as u32;
            self.in_use.push(true);
            assert(self.live() =~= live0.insert(p));
            assert(!live0.contains(p));
            proof { self.lemma_lowest_is(live0, p); }
            Ok(p)
        } else {
            assert forall|p: u32| p < self.limit implies live0.contains(p) by {
                assert(p < i);
            }
            Err(AllocError::Exhausted)
        }
    }

    /// Index of the first slot not in use, or the number of slots.
    fn first_free(&self) -> (i: usize)
        requires
            self.wf(),
        ensures
            i <= self.in_use@.len(),
            i < self.in_use@.len() ==> !self.in_use@[i as int],
            forall|q: u32| q < i ==> self.live().contains(q),
    {
        let len = self.in_use.len();
        let mut i: usize = 0;
        while i < len
            invariant
                i <= len,
                len == self.in_use@.len(),
                forall|q: u32| q < i ==> self.live().contains(q),
            decreases len - i,
        {
            if !self.in_use[i] {
                return i;
            }
            assert(self.live().contains(i as u32));
            i = i + 1;
        }
        i
    }

    proof fn lemma_lowest_is(&self, live: Set<u32>, p: u32)
        requires
            p < self.limit,
            !live.contains(p),
            forall|q: u32| q < p ==> live.contains(q),
        ensures
            lowest_free(live, self.limit) == Some(p),
    {
        let c = choose|x: u32| x < self.limit && !live.contains(x) && forall|q: u32| q < x ==> live.contains(q);
        assert(c < self.limit && !live.contains(c) && forall|q: u32| q < c ==> live.contains(q));
        if c < p {
            assert(live.contains(c));
        } else if p < c {
            assert(live.contains(p));
        }
    }

    /// Returns `port` to the free pool. Releasing a port that is not live is
    /// ignored; the result tells whether the port was live.
    pub fn release(&mut self, port: u32) -> (r: bool)
        requires
            old(self).wf(),
        ensures
            final(self).wf(),
            final(self).spec_limit() == old(self).spec_limit(),
            r == old(self).live().contains(port),
            final(self).live() == old(self).live().remove(port),
    {
        let ghost live0 = self.live();
        let idx = port as usize;
        if idx < self.in_use.len() && self.in_use[idx] {
            self.in_use.set(idx, false);
            assert(self.live() =~= live0.remove(port));
            true
        } else {
            assert(self.live() =~= live0.remove(port));
            false
        }
    }
}

} // verus!
