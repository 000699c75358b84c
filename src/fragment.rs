use vstd::prelude::*;

verus! {

/// How a payload is cut into chunks of at most `max` bytes: full chunks
/// from the front, then the rest. An empty payload is one empty chunk.
pub open spec fn fragments(data: Seq<u8>, max: nat) -> Seq<Seq<u8>>
    recommends
        max > 0,
    decreases data.len(),
{
    if data.len() <= max || max == 0 {
        seq![data]
    } else {
        seq![data.take(max as int)] + fragments(data.skip(max as int), max)
    }
}

/// Large payloads survive fragmentation: the chunks of a payload, joined in
/// order, are exactly the payload, whatever their number; each chunk holds
/// at most `max` bytes and only the last may be shorter.
pub proof fn lemma_fragments_join(data: Seq<u8>, max: nat)
    requires
        max > 0,
    ensures
        fragments(data, max).flatten() == data,
        fragments(data, max).len() >= 1,
        forall|i: int| 0 <= i < fragments(data, max).len() ==> #[trigger] fragments(data, max)[i].len() <= max,
        forall|i: int| 0 <= i < fragments(data, max).len() - 1 ==> #[trigger] fragments(data, max)[i].len() == max,
    decreases data.len(),
{
    let f = fragments(data, max);
    if data.len() <= max {
        assert(f.drop_first() =~= Seq::<Seq<u8>>::empty());
        assert(f.drop_first().flatten() == Seq::<u8>::empty());
        assert(f.flatten() =~= data);
    } else {
        let rest = fragments(data.skip(max as int), max);
        lemma_fragments_join(data.skip(max as int), max);
        assert(f.drop_first() =~= rest);
        assert(f.flatten() == data.take(max as int) + rest.flatten());
        assert(data.take(max as int) + data.skip(max as int) =~= data);
        assert forall|i: int| 0 < i < f.len() implies #[trigger] f[i] == rest[i - 1] by {}
    }
}

/// The bytes `data[from..to]` as a new vector.
fn copy_range(data: &Vec<u8>, from: usize, to: usize) -> (r: Vec<u8>)
    requires
        from <= to <= data@.len(),
    ensures
        r@ == data@.subrange(from as int, to as int),
{
    let mut r: Vec<u8> = Vec::with_capacity(to - from);
    let mut i: usize = from;
    while i < to
        invariant
            from <= i <= to <= data@.len(),
            r@ == data@.subrange(from as int, i as int),
        decreases to - i,
    {
        r.push(data[i]);
        assert(r@ =~= data@.subrange(from as int, i + 1));
        i = i + 1;
    }
    r
}

/// Cuts a payload into the chunks that `fragments` describes, so that each
/// fits into one data message of at most `max` bytes.
pub fn fragment(data: &Vec<u8>, max: usize) -> (r: Vec<Vec<u8>>)
    requires
        max > 0,
    ensures
        r@.map_values(|c: Vec<u8>| c@) == fragments(data@, max as nat),
{
    let mut r: Vec<Vec<u8>> = Vec::new();
    let len = data.len();
    let mut pos: usize = 0;
    assert(data@.skip(0) =~= data@);
    assert(r@.map_values(|c: Vec<u8>| c@) + fragments(data@, max as nat) =~= fragments(data@, max as nat));
    loop
        invariant
            max > 0,
            len == data@.len(),
            pos <= len,
            r@.map_values(|c: Vec<u8>| c@) + fragments(data@.skip(pos as int), max as nat)
                == fragments(data@, max as nat),
        decreases len - pos,
    {
        let ghost rest = data@.skip(pos as int);
        let ghost before = r@.map_values(|c: Vec<u8>| c@);
        if len - pos <= max {
            let c = copy_range(data, pos, len);
            assert(c@ =~= rest);
            r.push(c);
            assert(r@.map_values(|c: Vec<u8>| c@) =~= before + seq![rest]);
            assert(fragments(rest, max as nat) == seq![rest]);
            return r;
        }
        let c = copy_range(data, pos, pos + max);
        assert(c@ =~= rest.take(max as int));
        r.push(c);
        assert(r@.map_values(|c: Vec<u8>| c@) =~= before.push(rest.take(max as int)));
        assert(rest.skip(max as int) =~= data@.skip(pos + max));
        assert(fragments(rest, max as nat) == seq![rest.take(max as int)] + fragments(rest.skip(max as int), max as nat));
        assert(before.push(rest.take(max as int)) + fragments(data@.skip(pos + max), max as nat)
            =~= before + (seq![rest.take(max as int)] + fragments(rest.skip(max as int), max as nat)));
        pos = pos + max;
    }
}

/// Joins the chunks of one message as they arrive; a chunk flagged as the
/// last completes the message.
pub struct Reassembler {
    partial: Vec<u8>,
}

impl Reassembler {
    /// Bytes of the message received so far.
    pub closed spec fn spec_partial(&self) -> Seq<u8> {
        self.partial@
    }

    pub fn new() -> (r: Self)
        ensures
            r.spec_partial() == Seq::<u8>::empty(),
    {
        Reassembler { partial: Vec::new() }
    }

    /// Adds a chunk. When `last` is set the joined message is returned and
    /// the reassembler starts over; otherwise the chunk is kept.
    pub fn feed(&mut self, chunk: Vec<u8>, last: bool) -> (r: Option<Vec<u8>>)
        ensures
            if last {
                &&& r matches Some(m) && m@ == old(self).spec_partial() + chunk@
                &&& final(self).spec_partial() == Seq::<u8>::empty()
            } else {
                &&& r is None
                &&& final(self).spec_partial() == old(self).spec_partial() + chunk@
            },
    {
        let mut chunk = chunk;
        self.partial.append(&mut chunk);
        if last {
            let mut msg: Vec<u8> = Vec::new();
            std::mem::swap(&mut msg, &mut self.partial);
            Some(msg)
        } else {
            None
        }
    }
}

/// Joins `chunks` in order, as a receiver does with the chunks of one
/// message.
pub fn reassemble(chunks: Vec<Vec<u8>>) -> (r: Vec<u8>)
    ensures
        r@ == chunks@.map_values(|c: Vec<u8>| c@).flatten(),
{
    let mut re = Reassembler::new();
    let n = chunks.len();
    let mut out: Vec<u8> = Vec::new();
    let mut i: usize = 0;
    let ghost all = chunks@.map_values(|c: Vec<u8>| c@);
    assert(all.skip(0) =~= all);
    assert(re.spec_partial() + all.flatten() =~= all.flatten());
    while i < n
        invariant
            n == chunks@.len(),
            all == chunks@.map_values(|c: Vec<u8>| c@),
            i <= n,
            re.spec_partial() + all.skip(i as int).flatten() == all.flatten(),
        decreases n - i,
    {
        let c = chunks[i].clone();
        assert(c@ == chunks@[i as int]@);
        assert(all.skip(i as int).drop_first() =~= all.skip(i + 1));
        assert(all.skip(i as int).first() == c@);
        let ghost p0 = re.spec_partial();
        re.feed(c, false);
        assert(p0 + (c@ + all.skip(i + 1).flatten()) =~= (p0 + c@) + all.skip(i + 1).flatten());
        i = i + 1;
    }
    assert(all.skip(n as int) =~= Seq::<Seq<u8>>::empty());
    assert(re.spec_partial() =~= all.flatten());
    match re.feed(Vec::new(), true) {
        Some(m) => {
            assert(m@ =~= all.flatten());
            out = m;
        },
        None => {},
    }
    out
}

} // verus!
