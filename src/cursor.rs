//! A sequential reader over a sample store.
use vstd::prelude::*;
use crate::media::position_of;
use crate::store::{AudioBuffer, ReadResult};

verus! {

/// What one pull from a cursor gives.
#[derive(Clone, Copy, Debug, PartialEq, Eq)]
pub enum Pull<S> {
    /// The next sample; the cursor has moved past it.
    Sample(S),
    /// No sample yet at the cursor, but decoding goes on: try again shortly.
    Wait,
    /// Decoding is over and the cursor has read everything.
    End,
}

/// A read offset into a sample store.
#[derive(Clone, Copy, Debug, PartialEq, Eq, Structural)]
pub struct BufferSource {
    position: u128,
}

impl BufferSource {
    /// Offset of the next sample to read.
    pub closed spec fn offset(&self) -> nat {
        self.position as nat
    }

    /// A cursor whose first read is at `start`.
    pub fn new(start: u128) -> (r: Self)
        ensures
            r.offset() == start as nat,
    {
        BufferSource { position: start }
    }

    pub fn offset_index(&self) -> (r: u128)
        ensures
            r == self.offset(),
    {
        self.position
    }

    /// Reads the sample at the cursor and moves past it. Where the store has
    /// nothing there yet the cursor stays and reports whether to wait or stop.
    pub fn next<S: Copy>(&mut self, buf: &AudioBuffer<S>) -> (r: Pull<S>)
        ensures
            old(self).offset() < buf.samples().len() ==> {
                &&& r == Pull::Sample(buf.samples()[old(self).offset() as int])
                &&& final(self).offset() == old(self).offset() + 1
            },
            old(self).offset() >= buf.samples().len() ==> {
                &&& final(self).offset() == old(self).offset()
                &&& r == if buf.complete() { Pull::<S>::End } else { Pull::<S>::Wait }
            },
    {
        let n = buf.len();
        match buf.read_at(self.position) {
            ReadResult::Sample(x) => {
                assert(self.position < n);
                self.position = self.position + 1;
                Pull::Sample(x)
            },
            ReadResult::Pending => Pull::Wait,
            ReadResult::End => Pull::End,
        }
    }

    /// Playback time at the cursor, in nanoseconds.
    pub fn current_position<S: Copy>(&self, buf: &AudioBuffer<S>) -> (r: u128)
        requires
            buf.wf(),
            buf.format().fits(self.offset() as int),
        ensures
            r == position_of(buf.format(), self.offset() as int),
    {
        buf.stream_format().position_at(self.position)
    }
}

} // verus!
