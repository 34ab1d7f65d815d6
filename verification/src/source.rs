//! The byte-producing side of the reader: the [`Source`] capability and an
//! in-memory implementation of it.

use vstd::prelude::*;

verus! {

/// Failures that the reader can report to its owner.
#[derive(Clone, Copy, Debug, PartialEq, Eq, Structural)]
pub enum Error {
    /// The source reported a failure while asked to write into the region it
    /// was handed.  The reader propagates it unchanged; its buffer state is
    /// not touched, so a retry on the same reader is valid.
    SourceFailure,
    /// `consume` was asked to acknowledge more bytes than are pending.
    OutOfRange,
}

/// The smallest of three lengths: how many bytes a source actually writes
/// when offered a region, given what it still holds and how much it hands
/// out per call.
pub open spec fn min3(a: nat, b: nat, c: nat) -> nat {
    if a <= b && a <= c {
        a
    } else if b <= c {
        b
    } else {
        c
    }
}

/// A producer of bytes: offered a mutable region, it writes a prefix of the
/// region and reports how many bytes it wrote, or fails.
///
/// The behaviour is pinned by three spec-level quantities the implementor
/// chooses: `stream()`, the bytes it stands ready to deliver in order;
/// `grant()`, the most it writes per call; and `failures()`, how many of the
/// coming calls fail before it serves data again.
///
/// Initialization contract: the caller must hand `read` a region in which
/// every byte already holds a defined value — this trait mandates the
/// deterministic fill to be all zeroes.  A source therefore can never
/// observe a byte that nobody wrote.
pub trait Source: Sized {
    /// The bytes this source stands ready to deliver, in order.
    spec fn stream(&self) -> Seq<u8>;

    /// The most bytes this source writes in one call.
    spec fn grant(&self) -> nat;

    /// How many of the coming calls fail before data flows again.
    spec fn failures(&self) -> nat;

    /// Write the next bytes of `stream()` into a prefix of `buf`, leaving
    /// the rest of `buf` untouched, and report how many bytes were written;
    /// or fail, leaving `buf` and the stream as they were.
    fn read(&mut self, buf: &mut Vec<u8>) -> (r: Result<usize, Error>)
        requires
            forall|i: int| 0 <= i < old(buf)@.len() ==> old(buf)@[i] == 0u8,
        ensures
            final(buf)@.len() == old(buf)@.len(),
            final(self).grant() == old(self).grant(),
            match r {
                Ok(n) => {
                    &&& old(self).failures() == 0
                    &&& final(self).failures() == 0
                    &&& n == min3(old(buf)@.len(), old(self).stream().len(), old(self).grant())
                    &&& final(buf)@ == old(self).stream().subrange(0, n as int)
                        + old(buf)@.skip(n as int)
                    &&& final(self).stream() == old(self).stream().skip(n as int)
                },
                Err(e) => {
                    &&& e == Error::SourceFailure
                    &&& old(self).failures() > 0
                    &&& final(self).failures() == (old(self).failures() - 1) as nat
                    &&& final(buf)@ == old(buf)@
                    &&& final(self).stream() == old(self).stream()
                },
            },
    ;
}

/// An in-memory source: serves the bytes of an owned vector in order, at
/// most `chunk` bytes per call, after first failing a scripted number of
/// calls.  A `chunk` of zero models a source with no data available.
pub struct MemSource {
    data: Vec<u8>,
    pos: usize,
    chunk: usize,
    fail_count: usize,
}

impl MemSource {
    #[verifier::type_invariant]
    spec fn wf(self) -> bool {
        self.pos <= self.data@.len()
    }

    /// A source that will serve the bytes of `data`, at most `chunk` per
    /// call, failing the first `failures` calls.
    pub fn new(data: Vec<u8>, chunk: usize, failures: usize) -> (s: Self)
        ensures
            s.stream() == data@,
            s.grant() == chunk,
            s.failures() == failures,
    {
        MemSource { data, pos: 0, chunk, fail_count: failures }
    }
}

impl Source for MemSource {
    closed spec fn stream(&self) -> Seq<u8> {
        self.data@.skip(self.pos as int)
    }

    closed spec fn grant(&self) -> nat {
        self.chunk as nat
    }

    closed spec fn failures(&self) -> nat {
        self.fail_count as nat
    }

    fn read(&mut self, buf: &mut Vec<u8>) -> (r: Result<usize, Error>) {
        proof {
            use_type_invariant(&*self);
        }
        if self.fail_count > 0 {
            self.fail_count = self.fail_count - 1;
            return Err(Error::SourceFailure);
        }
        let avail = self.data.len() - self.pos;
        let mut k = if self.chunk < avail {
            self.chunk
        } else {
            avail
        };
        if buf.len() < k {
            k = buf.len();
        }
        let ghost buf0 = buf@;
        let mut i: usize = 0;
        while i < k
            invariant
                i <= k,
                k <= buf0.len(),
                self.pos + k <= self.data@.len(),
                self.data@.len() <= usize::MAX,
                buf@.len() == buf0.len(),
                forall|j: int| 0 <= j < i ==> buf@[j] == self.data@[self.pos + j],
                forall|j: int| i <= j < buf0.len() ==> buf@[j] == buf0[j],
            decreases k - i,
        {
            let b = self.data[self.pos + i];
            buf[i] = b;
            i = i + 1;
        }
        self.pos = self.pos + k;
        proof {
            assert(buf@ =~= old(self).stream().subrange(0, k as int) + buf0.skip(k as int));
            assert(self.stream() =~= old(self).stream().skip(k as int));
        }
        Ok(k)
    }
}

} // verus!
