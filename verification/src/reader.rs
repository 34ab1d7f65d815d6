//! The greedy buffered reader: a growable byte buffer with a consumed
//! cursor, refilled on demand from a [`Source`].

use vstd::prelude::*;

verus! {

use crate::source::{min3, Error, Source};

/// Fixed number of bytes by which capacity grows when the buffer is
/// saturated.
pub const GROWTH_INCREMENT: usize = 16;

/// The abstract state of a reader: the cursor into the buffer, the bytes the
/// buffer genuinely holds, and the room the reader offers for refills.
///
/// The buffer splits into `[0, consumed)`, bytes already acknowledged;
/// `[consumed, data.len())`, bytes pending for the caller; and
/// `[data.len(), capacity)`, room that holds no byte anybody wrote.
#[verifier::ext_equal]
pub struct ReaderModel {
    /// Bytes already delivered to and acknowledged by the caller.
    pub consumed: nat,
    /// Every byte the buffer genuinely holds; its length is the reader's
    /// `length`.
    pub data: Seq<u8>,
    /// Total room the reader currently offers, never less than
    /// `data.len()`.
    pub capacity: nat,
}

impl ReaderModel {
    /// The reader invariant: `0 <= consumed <= length <= capacity`.
    pub open spec fn wf(self) -> bool {
        self.consumed <= self.data.len() && self.data.len() <= self.capacity
    }

    /// The bytes available to the caller but not yet consumed.
    pub open spec fn pending(self) -> Seq<u8> {
        self.data.skip(self.consumed as int)
    }

    /// Capacity after the growth step of a fill: grown by a fixed increment
    /// when the buffer is saturated, unchanged otherwise.
    pub open spec fn grown_capacity(self) -> nat {
        if self.consumed == self.capacity {
            (self.capacity + GROWTH_INCREMENT) as nat
        } else {
            self.capacity
        }
    }

    /// Size of the region a fill offers to the source.
    pub open spec fn write_room(self) -> nat {
        (self.grown_capacity() - self.data.len()) as nat
    }

    /// State after a fill that appended `written`: the cursor stands still,
    /// the data grows by exactly the written bytes, the capacity takes the
    /// growth step.
    pub open spec fn after_fill(self, written: Seq<u8>) -> ReaderModel {
        ReaderModel {
            consumed: self.consumed,
            data: self.data + written,
            capacity: self.grown_capacity(),
        }
    }

    /// State after acknowledging `amount` bytes: only the cursor moves.
    pub open spec fn after_consume(self, amount: nat) -> ReaderModel {
        ReaderModel { consumed: (self.consumed + amount) as nat, data: self.data, capacity: self.capacity }
    }
}

/// A buffered reader that greedily refills from its source, growing its
/// buffer by a fixed increment whenever the whole allocation has been
/// consumed, and never exposing a byte that neither the source nor the
/// reader itself wrote.
pub struct GreedyAccessReader<S: Source> {
    inner: S,
    buf: Vec<u8>,
    consumed: usize,
    capacity: usize,
}

impl<S: Source> View for GreedyAccessReader<S> {
    type V = ReaderModel;

    closed spec fn view(&self) -> ReaderModel {
        ReaderModel {
            consumed: self.consumed as nat,
            data: self.buf@,
            capacity: self.capacity as nat,
        }
    }
}

impl<S: Source> GreedyAccessReader<S> {
    /// The source this reader draws from, for contracts that track the
    /// stream across calls.
    pub closed spec fn source(self) -> S {
        self.inner
    }

    /// An empty reader over `inner`: no bytes, no cursor, no room yet.
    pub fn new(inner: S) -> (r: Self)
        ensures
            r@ == (ReaderModel { consumed: 0 as nat, data: Seq::<u8>::empty(), capacity: 0 as nat }),
            r@.wf(),
            r.source() == inner,
    {
        GreedyAccessReader { inner, buf: Vec::new(), consumed: 0, capacity: 0 }
    }

    /// An empty reader that starts with `capacity` bytes of room.
    pub fn with_capacity(inner: S, capacity: usize) -> (r: Self)
        ensures
            r@ == (ReaderModel {
                consumed: 0 as nat,
                data: Seq::<u8>::empty(),
                capacity: capacity as nat,
            }),
            r@.wf(),
            r.source() == inner,
    {
        GreedyAccessReader { inner, buf: Vec::new(), consumed: 0, capacity }
    }

    /// Bytes already acknowledged via `consume`.
    pub fn consumed(&self) -> (n: usize)
        ensures
            n == self@.consumed,
    {
        self.consumed
    }

    /// Bytes the buffer genuinely holds.
    pub fn len(&self) -> (n: usize)
        ensures
            n == self@.data.len(),
    {
        self.buf.len()
    }

    /// Total room the reader currently offers.
    pub fn capacity(&self) -> (n: usize)
        ensures
            n == self@.capacity,
    {
        self.capacity
    }

    /// Grow the buffer if it is saturated, offer the spare room to the
    /// source after zero-filling it, and return the pending bytes.
    ///
    /// On success the newly appended bytes are exactly the next bytes of
    /// the source's stream; on failure the error is propagated and the
    /// buffer is exactly as it was, apart from the growth step.
    pub fn fill_buf(&mut self) -> (r: Result<&[u8], Error>)
        requires
            old(self)@.wf(),
            old(self)@.capacity + GROWTH_INCREMENT <= usize::MAX,
        ensures
            final(self)@.wf(),
            final(self).source().grant() == old(self).source().grant(),
            match r {
                Ok(s) => ({
                    let n = min3(
                        old(self)@.write_room(),
                        old(self).source().stream().len(),
                        old(self).source().grant(),
                    );
                    &&& old(self).source().failures() == 0
                    &&& final(self).source().failures() == 0
                    &&& final(self)@ == old(self)@.after_fill(
                        old(self).source().stream().subrange(0, n as int),
                    )
                    &&& final(self).source().stream() == old(self).source().stream().skip(n as int)
                    &&& s@ == final(self)@.pending()
                }),
                Err(e) => {
                    &&& e == Error::SourceFailure
                    &&& old(self).source().failures() > 0
                    &&& final(self).source().failures() == (old(self).source().failures() - 1) as nat
                    &&& final(self)@ == old(self)@.after_fill(Seq::<u8>::empty())
                    &&& final(self).source().stream() == old(self).source().stream()
                },
            },
    {
        if self.capacity == self.consumed {
            self.capacity = self.capacity + GROWTH_INCREMENT;
        }
        let want = self.capacity - self.buf.len();

        // Initialization contract: the whole region offered to the source
        // holds a defined value before the source ever sees it.
        let mut scratch: Vec<u8> = Vec::new();
        let mut i: usize = 0;
        while i < want
            invariant
                i <= want,
                scratch@.len() == i,
                forall|j: int| 0 <= j < i ==> scratch@[j] == 0u8,
            decreases want - i,
        {
            scratch.push(0u8);
            i = i + 1;
        }
        match self.inner.read(&mut scratch) {
            Ok(n) => {
                scratch.truncate(n);
                proof {
                    assert(scratch@ =~= old(self).source().stream().subrange(0, n as int));
                }
                self.buf.append(&mut scratch);
                proof {
                    assert(self@ =~= old(self)@.after_fill(
                        old(self).source().stream().subrange(0, n as int),
                    ));
                }
                let s = vstd::slice::slice_subrange(self.buf.as_slice(), self.consumed, self.buf.len());
                proof {
                    assert(s@ =~= self@.pending());
                }
                Ok(s)
            },
            Err(e) => {
                proof {
                    assert(self@ =~= old(self)@.after_fill(Seq::<u8>::empty()));
                }
                Err(e)
            },
        }
    }

    /// Acknowledge `amount` pending bytes: the cursor advances, nothing is
    /// moved or erased.  An `amount` beyond the pending region is rejected,
    /// leaving the reader untouched.
    pub fn consume(&mut self, amount: usize) -> (r: Result<(), Error>)
        requires
            old(self)@.wf(),
        ensures
            final(self)@.wf(),
            final(self).source() == old(self).source(),
            if amount <= old(self)@.pending().len() {
                r == Ok::<(), Error>(()) && final(self)@ == old(self)@.after_consume(amount as nat)
            } else {
                r == Err::<(), Error>(Error::OutOfRange) && final(self)@ == old(self)@
            },
    {
        let pending_len = self.buf.len() - self.consumed;
        if amount <= pending_len {
            self.consumed = self.consumed + amount;
            Ok(())
        } else {
            Err(Error::OutOfRange)
        }
    }
}

/// The invariant `0 <= consumed <= length <= capacity` holds after every
/// call: the constructors establish it, and both transitions preserve it —
/// a fill that stays within the offered room, and a consume that stays
/// within the pending region.
pub proof fn lemma_wf_preserved(m: ReaderModel, written: Seq<u8>, amount: nat)
    requires
        m.wf(),
        written.len() <= m.write_room(),
        amount <= m.pending().len(),
    ensures
        m.after_fill(written).wf(),
        m.after_consume(amount).wf(),
{
}

/// Monotonicity: across a fill, capacity and length never decrease and the
/// cursor stands still; across a consume, capacity and length are
/// untouched.
pub proof fn lemma_monotonic(m: ReaderModel, written: Seq<u8>, amount: nat)
    ensures
        m.after_fill(written).capacity >= m.capacity,
        m.after_fill(written).data.len() >= m.data.len(),
        m.after_fill(written).consumed == m.consumed,
        m.after_consume(amount).capacity == m.capacity,
        m.after_consume(amount).data.len() == m.data.len(),
{
}

/// Consume advances the cursor only: after acknowledging `amount` bytes and
/// then filling, the buffer's bytes are untouched, and the first pending
/// byte is the one that stood `amount` places past the old cursor.
pub proof fn lemma_consume_then_fill(m: ReaderModel, amount: nat, written: Seq<u8>)
    requires
        m.wf(),
        amount <= m.pending().len(),
    ensures
        m.after_consume(amount).data == m.data,
        ({
            let filled = m.after_consume(amount).after_fill(written);
            &&& filled.pending().len() == m.pending().len() - amount + written.len()
            &&& filled.pending().len() > 0 ==> filled.pending()[0] == (m.data
                + written)[m.consumed + amount as int]
        }),
{
}

} // verus!
