use vstd::prelude::*;
use std::collections::VecDeque;

verus! {

/// Number of bytes in a sequence of chunks.
pub open spec fn total_bytes(s: Seq<Seq<u8>>) -> nat
    decreases s.len(),
{
    if s.len() == 0 {
        0
    } else {
        s[0].len() + total_bytes(s.drop_first())
    }
}

/// Appending a chunk adds its length to the total.
pub proof fn lemma_total_bytes_push(s: Seq<Seq<u8>>, c: Seq<u8>)
    ensures
        total_bytes(s.push(c)) == total_bytes(s) + c.len(),
    decreases s.len(),
{
    if s.len() > 0 {
        lemma_total_bytes_push(s.drop_first(), c);
        assert(s.push(c).drop_first() =~= s.drop_first().push(c));
    } else {
        assert(s.push(c).drop_first() =~= Seq::<Seq<u8>>::empty());
        assert(total_bytes(s.push(c).drop_first()) == 0);
    }
}

/// A chunk arrived beyond the advertised receive window.
#[derive(Clone, Copy, Debug, PartialEq, Eq, Structural)]
pub enum WindowExceeded {
    WindowExceeded,
}

/// What taking from a receive buffer yields.
#[derive(Debug)]
pub enum Pop {
    /// The oldest buffered chunk, and whether it ends a message.
    Chunk(Vec<u8>, bool),
    /// Nothing buffered yet, and the remote sender has not finished.
    Empty,
    /// Nothing buffered, and the remote sender has finished.
    EndOfStream,
}

/// Received but not yet consumed chunks of one channel, with the accounting
/// of how much consumed capacity has not been handed back to the remote
/// sender as credit.
pub struct ReceiveBuffer {
    chunks: VecDeque<(Vec<u8>, bool)>,
    window: u64,
    threshold: u64,
    buffered: u64,
    consumed: u64,
    eof: bool,
}

impl ReceiveBuffer {
    /// The buffered chunks, oldest first.
    pub closed spec fn contents(&self) -> Seq<Seq<u8>> {
        self.chunks@.map_values(|c: (Vec<u8>, bool)| c.0@)
    }

    /// For each buffered chunk, whether it is the last of its message.
    pub closed spec fn last_flags(&self) -> Seq<bool> {
        self.chunks@.map_values(|c: (Vec<u8>, bool)| c.1)
    }

    /// There is one flag for each chunk.
    pub broadcast proof fn lemma_flags_len(&self)
        ensures
            #[trigger] self.last_flags().len() == self.contents().len(),
    {
    }

    /// Largest number of bytes the buffer may hold.
    pub closed spec fn spec_window(&self) -> nat {
        self.window as nat
    }

    /// Consumed bytes after which credit is handed back.
    pub closed spec fn spec_threshold(&self) -> nat {
        self.threshold as nat
    }

    /// Bytes consumed and not yet handed back as credit.
    pub closed spec fn spec_consumed(&self) -> nat {
        self.consumed as nat
    }

    /// Whether the remote sender has signalled end of stream.
    pub closed spec fn spec_eof(&self) -> bool {
        self.eof
    }

    pub closed spec fn wf(&self) -> bool {
        &&& self.buffered == total_bytes(self.contents())
        &&& self.buffered <= self.window
        &&& 0 < self.threshold <= self.window <= u32::MAX
        &&& self.consumed < self.threshold
    }

    /// An empty buffer with the given window and credit-return threshold.
    pub fn new(window: u32, threshold: u32) -> (r: Self)
        requires
            0 < threshold <= window,
        ensures
            r.wf(),
            r.contents() == Seq::<Seq<u8>>::empty(),
            r.last_flags() == Seq::<bool>::empty(),
            r.spec_window() == window,
            r.spec_threshold() == threshold,
            r.spec_consumed() == 0,
            !r.spec_eof(),
    {
        let r = ReceiveBuffer {
            chunks: VecDeque::new(),
            window: window as u64,
            threshold: threshold as u64,
            buffered: 0,
            consumed: 0,
            eof: false,
        };
        assert(r.contents() =~= Seq::<Seq<u8>>::empty());
        assert(r.last_flags() =~= Seq::<bool>::empty());
        r
    }

    /// Number of bytes buffered.
    pub fn buffered(&self) -> (r: u64)
        requires
            self.wf(),
        ensures
            r == total_bytes(self.contents()),
    {
        self.buffered
    }

    /// Bytes the window still has room for.
    pub fn window_left(&self) -> (r: u64)
        requires
            self.wf(),
        ensures
            r == self.spec_window() - total_bytes(self.contents()),
    {
        self.window - self.buffered
    }

    /// Whether no chunk is buffered.
    pub fn is_empty(&self) -> (r: bool)
        ensures
            r == (self.contents().len() == 0),
    {
        self.chunks.len() == 0
    }

    pub fn is_eof(&self) -> (r: bool)
        ensures
            r == self.spec_eof(),
    {
        self.eof
    }

    /// Appends a received chunk, unless it would take the buffer past its
    /// window; then nothing changes and the error is returned.
    pub fn push(&mut self, chunk: Vec<u8>, last: bool) -> (r: Result<(), WindowExceeded>)
        requires
            old(self).wf(),
        ensures
            final(self).wf(),
            final(self).spec_window() == old(self).spec_window(),
            final(self).spec_threshold() == old(self).spec_threshold(),
            final(self).spec_consumed() == old(self).spec_consumed(),
            final(self).spec_eof() == old(self).spec_eof(),
            (r is Ok) == (total_bytes(old(self).contents()) + chunk@.len() <= old(self).spec_window()),
            r is Ok ==> final(self).contents() == old(self).contents().push(chunk@),
            r is Ok ==> final(self).last_flags() == old(self).last_flags().push(last),
            r is Err ==> final(self).contents() == old(self).contents(),
            r is Err ==> final(self).last_flags() == old(self).last_flags(),
    {
        let len = chunk.len();
        if len as u64 > self.window - self.buffered {
            return Err(WindowExceeded::WindowExceeded);
        }
        let ghost before = self.contents();
        let ghost flags = self.last_flags();
        self.chunks.push_back((chunk, last));
        self.buffered = self.buffered + len as u64;
        proof {
            assert(self.contents() =~= before.push(chunk@));
            assert(self.last_flags() =~= flags.push(last));
            lemma_total_bytes_push(before, chunk@);
        }
        Ok(())
    }

    /// Marks the end of the remote sender's stream.
    pub fn set_eof(&mut self)
        requires
            old(self).wf(),
        ensures
            final(self).wf(),
            final(self).contents() == old(self).contents(),
            final(self).last_flags() == old(self).last_flags(),
            final(self).spec_window() == old(self).spec_window(),
            final(self).spec_threshold() == old(self).spec_threshold(),
            final(self).spec_consumed() == old(self).spec_consumed(),
            final(self).spec_eof(),
    {
        self.eof = true;
    }

    /// Takes the oldest chunk. Its bytes count as consumed; once the
    /// consumed bytes reach the threshold they are returned as the credit to
    /// grant to the remote sender (second part of the result, else 0).
    pub fn pop(&mut self) -> (r: (Pop, u64))
        requires
            old(self).wf(),
        ensures
            final(self).wf(),
            final(self).spec_window() == old(self).spec_window(),
            final(self).spec_threshold() == old(self).spec_threshold(),
            final(self).spec_eof() == old(self).spec_eof(),
            old(self).contents().len() == 0 ==> {
                &&& final(self).contents() == old(self).contents()
                &&& final(self).last_flags() == old(self).last_flags()
                &&& final(self).spec_consumed() == old(self).spec_consumed()
                &&& r.1 == 0
                &&& if old(self).spec_eof() { r.0 is EndOfStream } else { r.0 is Empty }
            },
            old(self).contents().len() > 0 ==> {
                let used = old(self).spec_consumed() + old(self).contents()[0].len();
                &&& r.0 matches Pop::Chunk(c, last) && c@ == old(self).contents()[0]
                    && last == old(self).last_flags()[0]
                &&& final(self).contents() == old(self).contents().drop_first()
                &&& final(self).last_flags() == old(self).last_flags().drop_first()
                &&& used >= old(self).spec_threshold() ==> r.1 == used && final(self).spec_consumed() == 0
                &&& used < old(self).spec_threshold() ==> r.1 == 0 && final(self).spec_consumed() == used
            },
    {
        let ghost before = self.contents();
        let ghost flags = self.last_flags();
        match self.chunks.pop_front() {
            None => {
                if self.eof {
                    (Pop::EndOfStream, 0)
                } else {
                    (Pop::Empty, 0)
                }
            },
            Some((c, last)) => {
                assert(self.contents() =~= before.drop_first());
                assert(self.last_flags() =~= flags.drop_first());
                let len = c.len() as u64;
                assert(before[0] == c@);
                assert(flags[0] == last);
                self.buffered = self.buffered - len;
                let used = self.consumed + len;
                if used >= self.threshold {
                    self.consumed = 0;
                    (Pop::Chunk(c, last), used)
                } else {
                    self.consumed = used;
                    (Pop::Chunk(c, last), 0)
                }
            },
        }
    }
}

} // verus!
