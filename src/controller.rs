//! The playback controller of one song: its format and the cursor attached to the output.
use vstd::prelude::*;
use crate::cursor::{BufferSource, Pull};
use crate::media::{index_for_time, position_of, StreamFormat, MAX_NANOS, NANOS_PER_SEC};
use crate::store::AudioBuffer;

verus! {

/// Format of a song's stream and the cursor that the output reads through.
/// A seek attaches a fresh cursor; the store and its decoder are left alone.
pub struct SeekableAudio {
    format: StreamFormat,
    source: Option<BufferSource>,
}

impl SeekableAudio {
    pub closed spec fn format(&self) -> StreamFormat {
        self.format
    }

    /// The attached cursor, if any.
    pub closed spec fn source(&self) -> Option<BufferSource> {
        self.source
    }

    pub open spec fn wf(&self) -> bool {
        &&& self.format().wf()
        &&& self.source() matches Some(c) ==> self.format().fits(c.offset() as int)
    }

    /// Position reported for the controller: the attached cursor's, else zero.
    pub open spec fn position(&self) -> int {
        match self.source() {
            Some(c) => position_of(self.format(), c.offset() as int),
            None => 0,
        }
    }

    /// A controller for a stream of `format`, its cursor at the first sample.
    pub fn new(format: StreamFormat) -> (r: Self)
        requires
            format.wf(),
        ensures
            r.wf(),
            r.format() == format,
            r.source() matches Some(c) && c.offset() == 0,
    {
        SeekableAudio { format, source: Some(BufferSource::new(0)) }
    }

    pub fn stream_format(&self) -> (r: StreamFormat)
        ensures
            r == self.format(),
    {
        self.format
    }

    /// Playback time of the attached cursor in nanoseconds, zero when none is attached.
    pub fn get_position(&self) -> (r: u128)
        requires
            self.wf(),
        ensures
            r == self.position(),
    {
        match &self.source {
            Some(c) => self.format.position_at(c.offset_index()),
            None => 0,
        }
    }

    /// Replaces the attached cursor by a fresh one at the sample where playback
    /// `t` nanoseconds into the stream begins, decoded yet or not.
    pub fn seek(&mut self, t: u128)
        requires
            old(self).wf(),
            t <= MAX_NANOS,
        ensures
            final(self).wf(),
            final(self).format() == old(self).format(),
            final(self).source() matches Some(c) && c.offset() == index_for_time(
                old(self).format(),
                t as int,
            ),
    {
        let idx = self.format.sample_index_from_time(t);
        proof {
            lemma_seek_position_fits(self.format, t as int);
        }
        self.source = Some(BufferSource::new(idx));
    }

    /// Pulls the next sample through the attached cursor; with none attached
    /// there is nothing to play.
    pub fn next<S: Copy>(&mut self, buf: &AudioBuffer<S>) -> (r: Pull<S>)
        requires
            old(self).wf(),
            buf.format() == old(self).format(),
        ensures
            final(self).wf(),
            final(self).format() == old(self).format(),
            old(self).source() is None ==> r == Pull::<S>::End && final(self).source() is None,
            old(self).source() matches Some(c) ==> {
                &&& final(self).source() matches Some(d)
                &&& (c.offset() < buf.samples().len() ==> r == Pull::Sample(buf.samples()[c.offset() as int])
                    && d.offset() == c.offset() + 1)
                &&& (c.offset() >= buf.samples().len() ==> d.offset() == c.offset() && r == if buf.complete() {
                    Pull::<S>::End
                } else {
                    Pull::<S>::Wait
                })
            },
    {
        match self.source {
            None => Pull::End,
            Some(c) => {
                let mut c = c;
                let n = buf.len();
                let r = c.next(buf);
                proof {
                    if c.offset() != self.source->0.offset() {
                        assert(c.offset() <= n);
                        assert(n as int <= u64::MAX);
                        lemma_small_offset_fits(self.format, c.offset() as int);
                    }
                }
                self.source = Some(c);
                r
            },
        }
    }
}

/// An offset no larger than the largest `u64` has a position that fits a `Duration`.
proof fn lemma_small_offset_fits(f: StreamFormat, offset: int)
    requires
        f.wf(),
        0 <= offset <= u64::MAX,
    ensures
        f.fits(offset),
{
    let ch = f.channels as int;
    let rate = f.sample_rate as int;
    assert((offset / ch) / rate <= offset) by (nonlinear_arith)
        requires ch >= 1, rate >= 1, offset >= 0
    {
        assert(offset / ch <= offset);
        assert((offset / ch) / rate <= offset / ch);
    }
}

/// The offset a seek computes has a position that fits a `Duration`.
proof fn lemma_seek_position_fits(f: StreamFormat, t: int)
    requires
        f.wf(),
        0 <= t <= MAX_NANOS,
    ensures
        f.fits(index_for_time(f, t)),
{
    let ch = f.channels as int;
    let rate = f.sample_rate as int;
    let n = NANOS_PER_SEC as int;
    let frame = (t * rate) / n;
    assert((frame * ch) / ch == frame) by (nonlinear_arith)
        requires ch >= 1;
    assert(frame / rate <= t / n) by (nonlinear_arith)
        requires frame == (t * rate) / n, rate >= 1, n >= 1, t >= 0
    {
        assert(frame * n <= t * rate);
        assert((frame / rate) * rate <= frame);
        assert((frame / rate) * rate * n <= t * rate);
        assert((frame / rate) * n <= t);
        assert(((frame / rate) * n) / n <= t / n) by {
            vstd::arithmetic::div_mod::lemma_div_is_ordered((frame / rate) * n, t, n);
        }
    }
    assert(t / n <= u64::MAX);
}

/// Seeking to `t` attaches a cursor whose position is `t` to within one frame:
/// never past `t`, and short of it by less than one frame's duration.
pub proof fn lemma_seek_within_one_frame(f: StreamFormat, t: int)
    requires
        f.wf(),
        0 <= t <= MAX_NANOS,
    ensures
        position_of(f, index_for_time(f, t)) <= t,
        (t - position_of(f, index_for_time(f, t))) * (f.sample_rate as int) < NANOS_PER_SEC as int,
{
    let ch = f.channels as int;
    let rate = f.sample_rate as int;
    let n = NANOS_PER_SEC as int;
    let frame = (t * rate) / n;
    assert((frame * ch) / ch == frame) by (nonlinear_arith)
        requires ch >= 1;
    let p = (frame * n + rate - 1) / rate;
    assert(p == position_of(f, index_for_time(f, t)));
    assert(frame * n <= t * rate) by (nonlinear_arith)
        requires frame == (t * rate) / n, n >= 1;
    assert(t * rate < (frame + 1) * n) by (nonlinear_arith)
        requires frame == (t * rate) / n, n >= 1;
    assert(p * rate <= frame * n + rate - 1) by (nonlinear_arith)
        requires p == (frame * n + rate - 1) / rate, rate >= 1;
    assert(frame * n + rate - 1 < (p + 1) * rate) by (nonlinear_arith)
        requires p == (frame * n + rate - 1) / rate, rate >= 1;
    assert(p * rate < (t + 1) * rate) by (nonlinear_arith)
        requires p * rate <= frame * n + rate - 1, frame * n <= t * rate, rate >= 1;
    assert(p <= t) by (nonlinear_arith)
        requires p * rate < (t + 1) * rate, rate >= 1;
    assert(frame * n < p * rate + 1) by (nonlinear_arith)
        requires frame * n + rate - 1 < (p + 1) * rate;
    assert((t - p) * rate < n) by (nonlinear_arith)
        requires t * rate < (frame + 1) * n, frame * n < p * rate + 1, rate >= 1;
}

} // verus!
