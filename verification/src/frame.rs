//! The single-slot exchange buffer between capture and playback.
//!
//! A `SharedFrame` is a fixed-length block of samples, allocated once as
//! silence.  The capture side overwrites its head wholesale on every capture
//! event; the playback side copies the whole block out.  The frame itself is
//! the exchange cell: callers serialize access to it (the surrounding program
//! keeps it behind a mutual-exclusion lock), so every read observes exactly
//! one completed write — last write wins, no queue, no backpressure.

use vstd::prelude::*;
use vstd::pervasive::VecAdditionalExecFns;

verus! {

/// The frame content after a block of captured samples is written over its
/// head: the first `min(block.len(), frame.len())` slots take the block's
/// values, the tail keeps its previous values.
pub open spec fn overwritten(frame: Seq<i32>, block: Seq<i32>) -> Seq<i32> {
    Seq::new(
        frame.len(),
        |i: int|
            if i < block.len() {
                block[i]
            } else {
                frame[i]
            },
    )
}

/// A fixed-capacity sample buffer: the single exchange point between the
/// capture callback (its only writer) and the playback callback (its only
/// reader).  Its length never changes after construction.
pub struct SharedFrame {
    samples: Vec<i32>,
}

impl View for SharedFrame {
    type V = Seq<i32>;

    closed spec fn view(&self) -> Seq<i32> {
        self.samples@
    }
}

impl SharedFrame {
    /// A frame of `len` slots, all silence.
    pub fn new(len: usize) -> (frame: SharedFrame)
        ensures
            frame@.len() == len,
            forall|i: int| 0 <= i < len ==> frame@[i] == 0i32,
    {
        let mut samples: Vec<i32> = Vec::new();
        let mut i: usize = 0;
        while i < len
            invariant
                i <= len,
                samples@.len() == i,
                forall|j: int| 0 <= j < i ==> samples@[j] == 0i32,
            decreases len - i,
        {
            samples.push(0);
            i = i + 1;
        }
        SharedFrame { samples }
    }

    /// Number of slots in the frame.
    pub fn len(&self) -> (n: usize)
        ensures
            n == self@.len(),
    {
        self.samples.len()
    }

    /// Write a captured block over the head of the frame: the first
    /// `min(block.len(), len)` slots take the block's values, samples beyond
    /// the block's length keep their previous values, and excess input beyond
    /// the frame's capacity is discarded.  The frame's length is unchanged.
    pub fn write_block(&mut self, block: &Vec<i32>)
        ensures
            final(self)@ == overwritten(old(self)@, block@),
    {
        let n: usize = if block.len() < self.samples.len() {
            block.len()
        } else {
            self.samples.len()
        };
        let mut i: usize = 0;
        while i < n
            invariant
                n <= block@.len(),
                n <= self.samples@.len(),
                self.samples@.len() == old(self)@.len(),
                i <= n,
                forall|j: int| 0 <= j < i ==> self.samples@[j] == block@[j],
                forall|j: int| i <= j < self.samples@.len() ==> self.samples@[j] == old(self)@[j],
                n == if block@.len() < old(self)@.len() {
                    block@.len() as int
                } else {
                    old(self)@.len() as int
                },
            decreases n - i,
        {
            self.samples.set(i, block[i]);
            i = i + 1;
        }
        proof {
            assert(self.samples@ =~= overwritten(old(self)@, block@));
        }
    }

    /// Copy the whole frame out, so the caller can release its lock before
    /// any further processing.
    pub fn read_frame(&self) -> (copy: Vec<i32>)
        ensures
            copy@ == self@,
    {
        let mut copy: Vec<i32> = Vec::new();
        let mut i: usize = 0;
        let len: usize = self.samples.len();
        while i < len
            invariant
                len == self.samples@.len(),
                i <= len,
                copy@.len() == i,
                forall|j: int| 0 <= j < i ==> copy@[j] == self.samples@[j],
            decreases len - i,
        {
            copy.push(self.samples[i]);
            i = i + 1;
        }
        proof {
            assert(copy@ =~= self@);
        }
        copy
    }
}

/// A write of a complete, uniform block leaves the frame uniform: a reader
/// that observes the frame between completed writes sees one write's value
/// everywhere, never a mixture of two writes.
pub proof fn lemma_full_uniform_write(frame: Seq<i32>, block: Seq<i32>, v: i32)
    requires
        block.len() >= frame.len(),
        forall|i: int| 0 <= i < block.len() ==> block[i] == v,
    ensures
        overwritten(frame, block).len() == frame.len(),
        forall|i: int| 0 <= i < frame.len() ==> overwritten(frame, block)[i] == v,
{
}

} // verus!
