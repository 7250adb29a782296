//! The append-only store of decoded samples shared by the decoder and the player.
use vstd::prelude::*;
use crate::media::{StreamFormat, index_for_time, MAX_NANOS};

verus! {

/// What a reader finds at an offset of the store.
#[derive(Clone, Copy, Debug, PartialEq, Eq)]
pub enum ReadResult<S> {
    /// The sample stored at that offset.
    Sample(S),
    /// Nothing there yet, and the decoder has not finished.
    Pending,
    /// Nothing there, and nothing more will come.
    End,
}

/// One outcome of the decoder's loop, as the decoder reports it.
#[derive(Clone, Debug, PartialEq, Eq)]
pub enum DecodeEvent<S> {
    /// A packet of the chosen track decoded into these interleaved samples.
    Decoded(Vec<S>),
    /// A packet belonging to another track.
    OtherTrack,
    /// A packet that failed to decode; decoding can go on.
    DecodeError,
    /// The input ended or could not be read further.
    EndOfInput,
    /// Any other failure; decoding cannot go on.
    Fatal,
}

/// Whether the decoder's loop goes on after an event.
#[derive(Clone, Copy, Debug, PartialEq, Eq, Structural)]
pub enum DecodeStep {
    Continue,
    Finished,
}

/// Decoded interleaved samples of one stream, with its format and whether decoding is over.
pub struct AudioBuffer<S> {
    samples: Vec<S>,
    format: StreamFormat,
    fully_loaded: bool,
}

/// What `read_at` finds at `offset` in `samples`, given whether decoding is over.
pub open spec fn read_spec<S>(samples: Seq<S>, complete: bool, offset: int) -> ReadResult<S> {
    if 0 <= offset < samples.len() {
        ReadResult::Sample(samples[offset])
    } else if complete {
        ReadResult::End
    } else {
        ReadResult::Pending
    }
}

/// The sample offset for a time depends on the stream's format alone: asked
/// again of the same store, or after more samples are decoded, it is the same.
pub proof fn lemma_index_for_time_stable<S: Copy>(a: AudioBuffer<S>, b: AudioBuffer<S>, t: int)
    requires
        a.format() == b.format(),
    ensures
        index_for_time(a.format(), t) == index_for_time(b.format(), t),
{
}

impl<S: Copy> AudioBuffer<S> {
    /// The samples decoded so far.
    pub closed spec fn samples(&self) -> Seq<S> {
        self.samples@
    }

    pub closed spec fn format(&self) -> StreamFormat {
        self.format
    }

    /// Decoding is over: no sample will be added.
    pub closed spec fn complete(&self) -> bool {
        self.fully_loaded
    }

    pub open spec fn wf(&self) -> bool {
        self.format().wf()
    }

    /// An empty store for a stream of the given format.
    pub fn new(format: StreamFormat) -> (r: Self)
        requires
            format.wf(),
        ensures
            r.wf(),
            r.samples() == Seq::<S>::empty(),
            r.format() == format,
            !r.complete(),
    {
        AudioBuffer { samples: Vec::new(), format, fully_loaded: false }
    }

    /// Appends `new` after the samples already stored.
    pub fn push_samples(&mut self, new: Vec<S>)
        ensures
            final(self).samples() == old(self).samples() + new@,
            final(self).format() == old(self).format(),
            final(self).complete() == old(self).complete(),
    {
        let mut new = new;
        self.samples.append(&mut new);
    }

    /// Records that decoding is over.
    pub fn mark_complete(&mut self)
        ensures
            final(self).samples() == old(self).samples(),
            final(self).format() == old(self).format(),
            final(self).complete(),
    {
        self.fully_loaded = true;
    }

    pub fn len(&self) -> (r: usize)
        ensures
            r == self.samples().len(),
    {
        self.samples.len()
    }

    pub fn is_complete(&self) -> (r: bool)
        ensures
            r == self.complete(),
    {
        self.fully_loaded
    }

    pub fn stream_format(&self) -> (r: StreamFormat)
        ensures
            r == self.format(),
    {
        self.format
    }

    /// The sample at `offset`, or whether one may still come.
    pub fn read_at(&self, offset: u128) -> (r: ReadResult<S>)
        ensures
            r == read_spec(self.samples(), self.complete(), offset as int),
    {
        if offset < self.samples.len() as u128 {
            ReadResult::Sample(self.samples[offset as usize])
        } else if self.fully_loaded {
            ReadResult::End
        } else {
            ReadResult::Pending
        }
    }

    /// Sample offset at which playback `t` nanoseconds into the stream begins,
    /// whether or not decoding has reached it.
    pub fn sample_index_from_time(&self, t: u128) -> (r: u128)
        requires
            self.wf(),
            t <= MAX_NANOS,
        ensures
            r == index_for_time(self.format(), t as int),
    {
        self.format.sample_index_from_time(t)
    }

    /// Takes one outcome of the decoder into the store: decoded samples are
    /// appended, a packet of another track or one that failed to decode is
    /// skipped, and the end of the input or any other failure ends decoding.
    pub fn apply_decode_event(&mut self, ev: DecodeEvent<S>) -> (r: DecodeStep)
        ensures
            final(self).format() == old(self).format(),
            match ev {
                DecodeEvent::Decoded(v) => {
                    &&& r == DecodeStep::Continue
                    &&& final(self).samples() == old(self).samples() + v@
                    &&& final(self).complete() == old(self).complete()
                },
                DecodeEvent::OtherTrack | DecodeEvent::DecodeError => {
                    &&& r == DecodeStep::Continue
                    &&& final(self).samples() == old(self).samples()
                    &&& final(self).complete() == old(self).complete()
                },
                DecodeEvent::EndOfInput | DecodeEvent::Fatal => {
                    &&& r == DecodeStep::Finished
                    &&& final(self).samples() == old(self).samples()
                    &&& final(self).complete()
                },
            },
    {
        match ev {
            DecodeEvent::Decoded(v) => {
                self.push_samples(v);
                DecodeStep::Continue
            },
            DecodeEvent::OtherTrack | DecodeEvent::DecodeError => DecodeStep::Continue,
            DecodeEvent::EndOfInput | DecodeEvent::Fatal => {
                self.mark_complete();
                DecodeStep::Finished
            },
        }
    }
}

} // verus!
