//! Stream format and the arithmetic that maps playback time to sample offsets.
//!
//! Time is measured in whole nanoseconds, the resolution of `std::time::Duration`.
use vstd::prelude::*;

verus! {

/// Nanoseconds in one second.
pub const NANOS_PER_SEC: u128 = 1_000_000_000;

/// The longest duration `std::time::Duration` can hold, in nanoseconds.
pub const MAX_NANOS: u128 = 18_446_744_073_709_551_615_999_999_999;

/// Sample rate, channel count and estimated length of a decoded stream.
#[derive(Clone, Copy, Debug, PartialEq, Eq, Structural)]
pub struct StreamFormat {
    /// Frames per second.
    pub sample_rate: u32,
    /// Interleaved channels per frame.
    pub channels: u16,
    /// Estimated total length in nanoseconds (zero when the container gives none).
    pub duration: u128,
}

/// What the container reports about one of its tracks.
#[derive(Clone, Copy, Debug, PartialEq, Eq, Structural)]
pub struct TrackParams {
    /// The track's codec is the null codec (not audio the decoder can use).
    pub null_codec: bool,
    pub sample_rate: Option<u32>,
    pub channels: Option<usize>,
    /// Length computed from time base and frame count, zero when either is absent.
    pub duration: u128,
}

/// Why a stream's format could not be established.
#[derive(Clone, Copy, Debug, PartialEq, Eq, Structural)]
pub enum OpenError {
    NoTrack,
    MissingSampleRate,
    MissingChannels,
    ZeroSampleRate,
    UnsupportedChannels,
}

/// Frame that is playing `t` nanoseconds into a stream of `rate` frames per second.
pub open spec fn frame_at(t: int, rate: int) -> int {
    (t * rate) / (NANOS_PER_SEC as int)
}

/// `floor(t * rate) * channels`, with `t` in nanoseconds.
pub open spec fn index_for_time(f: StreamFormat, t: int) -> int {
    frame_at(t, f.sample_rate as int) * (f.channels as int)
}

/// `floor(offset / channels) / rate`, rounded up to a whole nanosecond. The
/// exact time is never past a whole-nanosecond seek target, so neither is
/// this, and it stays within one frame of that target.
pub open spec fn position_of(f: StreamFormat, offset: int) -> int {
    ((offset / (f.channels as int)) * (NANOS_PER_SEC as int) + (f.sample_rate as int) - 1) / (f.sample_rate as int)
}

/// Index of the first track whose codec is not the null codec.
pub open spec fn is_first_audio(tracks: Seq<TrackParams>, i: int) -> bool {
    &&& 0 <= i < tracks.len()
    &&& !tracks[i].null_codec
    &&& forall|j: int| 0 <= j < i ==> #[trigger] tracks[j].null_codec
}

pub open spec fn has_audio(tracks: Seq<TrackParams>) -> bool {
    exists|i: int| 0 <= i < tracks.len() && !(#[trigger] tracks[i]).null_codec
}

/// The format that a track's parameters give, or why they give none.
pub open spec fn format_of(t: TrackParams) -> Result<StreamFormat, OpenError> {
    if t.sample_rate is None {
        Err(OpenError::MissingSampleRate)
    } else if t.channels is None {
        Err(OpenError::MissingChannels)
    } else if t.sample_rate->0 == 0 {
        Err(OpenError::ZeroSampleRate)
    } else if t.channels->0 == 0 || t.channels->0 > u16::MAX {
        Err(OpenError::UnsupportedChannels)
    } else {
        Ok(
            StreamFormat {
                sample_rate: t.sample_rate->0,
                channels: t.channels->0 as u16,
                duration: t.duration,
            },
        )
    }
}

impl StreamFormat {
    /// Both rate and channel count are positive.
    pub open spec fn wf(&self) -> bool {
        self.sample_rate > 0 && self.channels > 0
    }

    /// The format of the first audio track among `tracks`.
    pub fn from_tracks(tracks: &Vec<TrackParams>) -> (r: Result<StreamFormat, OpenError>)
        ensures
            !has_audio(tracks@) ==> r == Err::<StreamFormat, OpenError>(OpenError::NoTrack),
            forall|i: int| is_first_audio(tracks@, i) ==> r == format_of(tracks@[i]),
            r is Ok ==> r->Ok_0.wf(),
    {
        match first_audio_track(tracks) {
            None => Err(OpenError::NoTrack),
            Some(i) => {
                let t = tracks[i];
                match (t.sample_rate, t.channels) {
                    (None, _) => Err(OpenError::MissingSampleRate),
                    (_, None) => Err(OpenError::MissingChannels),
                    (Some(rate), Some(ch)) => {
                        if rate == 0 {
                            Err(OpenError::ZeroSampleRate)
                        } else if ch == 0 || ch > u16::MAX as usize {
                            Err(OpenError::UnsupportedChannels)
                        } else {
                            Ok(StreamFormat { sample_rate: rate, channels: ch as u16, duration: t.duration })
                        }
                    },
                }
            },
        }
    }

    /// Sample offset at which playback `t` nanoseconds into the stream begins.
    pub fn sample_index_from_time(&self, t: u128) -> (r: u128)
        requires
            self.wf(),
            t <= MAX_NANOS,
        ensures
            r == index_for_time(*self, t as int),
    {
        let rate = self.sample_rate as u128;
        proof {
            let m = MAX_NANOS as int;
            let n = NANOS_PER_SEC as int;
            assert(t * rate <= m * 0xffff_ffff) by (nonlinear_arith)
                requires t <= m, rate <= 0xffff_ffff;
            let fr = (t * rate) as int / n;
            assert(fr <= m * 0xffff_ffff / n) by (nonlinear_arith)
                requires t * rate <= m * 0xffff_ffff, fr == (t * rate) as int / n, n > 0;
            assert(fr * (self.channels as int) <= (m * 0xffff_ffff / n) * 0xffff) by (nonlinear_arith)
                requires fr <= m * 0xffff_ffff / n, fr >= 0, self.channels <= 0xffff;
        }
        let frame = t * rate / NANOS_PER_SEC;
        frame * (self.channels as u128)
    }

    /// The position at `offset` is within the range of `std::time::Duration`.
    pub open spec fn fits(&self, offset: int) -> bool {
        (offset / (self.channels as int)) / (self.sample_rate as int) <= u64::MAX
    }

    /// Playback time, in nanoseconds, at sample offset `offset`.
    pub fn position_at(&self, offset: u128) -> (r: u128)
        requires
            self.wf(),
            self.fits(offset as int),
        ensures
            r == position_of(*self, offset as int),
    {
        let rate = self.sample_rate as u128;
        let frame = offset / (self.channels as u128);
        let secs = frame / rate;
        let rem = frame % rate;
        proof {
            let n = NANOS_PER_SEC as int;
            let r = rate as int;
            assert(frame == secs * rate + rem) by (nonlinear_arith)
                requires secs == frame / rate, rem == frame % rate, rate > 0;
            assert(secs * n <= u64::MAX * n) by (nonlinear_arith)
                requires secs <= u64::MAX, n > 0;
            assert(rem * n + r - 1 < r * n + r) by (nonlinear_arith)
                requires rem < r, n > 0, r > 0;
            vstd::arithmetic::div_mod::lemma_hoist_over_denominator(rem * n + r - 1, secs * n, rate as nat);
            assert(frame * n + r - 1 == (rem * n + r - 1) + (secs * n) * r) by (nonlinear_arith)
                requires frame == secs * rate + rem, r == rate;
            assert((rem * n + r - 1) / r <= n) by (nonlinear_arith)
                requires rem * n + r - 1 < r * n + r, r > 0, rem >= 0
            {
                assert((rem * n + r - 1) / r < n + 1);
            }
        }
        secs * NANOS_PER_SEC + (rem * NANOS_PER_SEC + rate - 1) / rate
    }
}

/// Position of the first track whose codec is not the null codec.
pub fn first_audio_track(tracks: &Vec<TrackParams>) -> (r: Option<usize>)
    ensures
        r is None <==> !has_audio(tracks@),
        r matches Some(i) ==> is_first_audio(tracks@, i as int),
{
    let mut i: usize = 0;
    while i < tracks.len()
        invariant
            0 <= i <= tracks.len(),
            forall|j: int| 0 <= j < i ==> #[trigger] tracks@[j].null_codec,
        decreases tracks.len() - i,
    {
        if !tracks[i].null_codec {
            return Some(i);
        }
        i += 1;
    }
    None
}

} // verus!
