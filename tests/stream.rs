use musicman::controller::SeekableAudio;
use musicman::cursor::{BufferSource, Pull};
use musicman::media::{first_audio_track, OpenError, StreamFormat, TrackParams, NANOS_PER_SEC};
use musicman::store::{AudioBuffer, DecodeEvent, DecodeStep, ReadResult};

fn fmt(rate: u32, channels: u16, secs: u128) -> StreamFormat {
    StreamFormat { sample_rate: rate, channels, duration: secs * NANOS_PER_SEC }
}

fn track(null_codec: bool, rate: Option<u32>, ch: Option<usize>) -> TrackParams {
    TrackParams { null_codec, sample_rate: rate, channels: ch, duration: 7 }
}

#[test]
fn index_for_time_is_floor_of_time_times_rate_times_channels() {
    let f = fmt(44100, 2, 10);
    assert_eq!(f.sample_index_from_time(0), 0);
    assert_eq!(f.sample_index_from_time(1_500_000_000), 132300);
    // 0.1 s at 44100 Hz is 4410 frames
    assert_eq!(f.sample_index_from_time(100_000_000), 8820);
    // floor: 1 ns short of one frame is still frame 0
    let g = fmt(3, 1, 1);
    assert_eq!(g.sample_index_from_time(333_333_333), 0);
    assert_eq!(g.sample_index_from_time(333_333_334), 1);
    assert_eq!(g.sample_index_from_time(500_000_000), 1);
}

#[test]
fn index_for_time_repeats_on_same_store() {
    let mut b: AudioBuffer<f32> = AudioBuffer::new(fmt(48000, 2, 10));
    let first = b.sample_index_from_time(2_250_000_000);
    let second = b.sample_index_from_time(2_250_000_000);
    assert_eq!(first, second);
    assert_eq!(first, 216000);
    b.push_samples(vec![0.5; 10]);
    assert_eq!(b.sample_index_from_time(2_250_000_000), first);
}

#[test]
fn index_for_time_beyond_decoded_length() {
    let b: AudioBuffer<f32> = AudioBuffer::new(fmt(8000, 1, 10));
    assert_eq!(b.len(), 0);
    assert_eq!(b.sample_index_from_time(9 * NANOS_PER_SEC), 72000);
}

#[test]
fn index_for_time_largest_duration() {
    let f = fmt(u32::MAX, u16::MAX, 0);
    let t = musicman::media::MAX_NANOS;
    let frame = t * (u32::MAX as u128) / NANOS_PER_SEC;
    assert_eq!(f.sample_index_from_time(t), frame * (u16::MAX as u128));
}

#[test]
fn position_at_offsets() {
    let f = fmt(44100, 2, 10);
    assert_eq!(f.position_at(0), 0);
    assert_eq!(f.position_at(88200), NANOS_PER_SEC);
    // an odd offset belongs to the frame before
    assert_eq!(f.position_at(88201), NANOS_PER_SEC);
    let g = fmt(3, 1, 1);
    // rounded up to the next whole nanosecond
    assert_eq!(g.position_at(1), 333_333_334);
    assert_eq!(g.position_at(4), 1_333_333_334);
}

#[test]
fn seek_lands_within_one_frame() {
    let f = fmt(3, 1, 10);
    let mut a = SeekableAudio::new(f);
    a.seek(500_000_000);
    let p = a.get_position();
    assert_eq!(p, 333_333_334);
    assert!(p <= 500_000_000);
    assert!((500_000_000 - p) * 3 < NANOS_PER_SEC);
    // one frame at 44100 Hz lasts about 22675.7 ns
    let mut d = SeekableAudio::new(fmt(44100, 1, 1));
    d.seek(45_351);
    let q = d.get_position();
    assert_eq!(q, 22_676);
    assert!(q <= 45_351);
    assert!((45_351 - q) * 44100 < NANOS_PER_SEC);
    let mut c = SeekableAudio::new(fmt(44100, 2, 10));
    c.seek(5 * NANOS_PER_SEC);
    assert_eq!(c.get_position(), 5 * NANOS_PER_SEC);
}

#[test]
fn seek_ahead_of_decoding_waits_then_plays() {
    // 10 s track at 10 Hz mono; 3 s decoded
    let f = fmt(10, 1, 10);
    let mut buf: AudioBuffer<f32> = AudioBuffer::new(f);
    buf.push_samples((0..30).map(|i| i as f32).collect());
    let mut a = SeekableAudio::new(f);
    a.seek(5 * NANOS_PER_SEC);
    assert_eq!(a.get_position(), 5 * NANOS_PER_SEC);
    assert_eq!(a.next(&buf), Pull::Wait);
    assert_eq!(a.next(&buf), Pull::Wait);
    assert_eq!(a.get_position(), 5 * NANOS_PER_SEC);
    buf.push_samples((30..60).map(|i| i as f32).collect());
    assert_eq!(a.next(&buf), Pull::Sample(50.0));
    assert_eq!(a.next(&buf), Pull::Sample(51.0));
    assert_eq!(a.get_position(), 5_200_000_000);
}

#[test]
fn seek_past_final_length_ends() {
    let f = fmt(10, 1, 10);
    let mut buf: AudioBuffer<f32> = AudioBuffer::new(f);
    buf.push_samples(vec![1.0; 20]);
    buf.mark_complete();
    let mut a = SeekableAudio::new(f);
    a.seek(5 * NANOS_PER_SEC);
    assert_eq!(a.next(&buf), Pull::End);
}

#[test]
fn cursor_never_reads_past_length() {
    let mut buf: AudioBuffer<f32> = AudioBuffer::new(fmt(8000, 2, 1));
    buf.push_samples(vec![0.25, -0.25]);
    let mut c = BufferSource::new(0);
    assert_eq!(c.next(&buf), Pull::Sample(0.25));
    assert_eq!(c.next(&buf), Pull::Sample(-0.25));
    assert_eq!(c.offset_index(), 2);
    assert_eq!(c.next(&buf), Pull::Wait);
    assert_eq!(c.offset_index(), 2);
    buf.push_samples(vec![0.75]);
    assert_eq!(c.next(&buf), Pull::Sample(0.75));
    assert_eq!(c.next(&buf), Pull::Wait);
    buf.mark_complete();
    assert_eq!(c.next(&buf), Pull::End);
    assert_eq!(c.offset_index(), 3);
}

#[test]
fn cursor_on_empty_store() {
    let mut buf: AudioBuffer<f32> = AudioBuffer::new(fmt(8000, 1, 0));
    let mut c = BufferSource::new(0);
    assert_eq!(c.next(&buf), Pull::Wait);
    buf.mark_complete();
    assert_eq!(c.next(&buf), Pull::End);
    assert_eq!(c.current_position(&buf), 0);
}

#[test]
fn read_at_reports_sample_pending_end() {
    let mut buf: AudioBuffer<f32> = AudioBuffer::new(fmt(8000, 1, 1));
    buf.push_samples(vec![0.5]);
    assert_eq!(buf.read_at(0), ReadResult::Sample(0.5));
    assert_eq!(buf.read_at(1), ReadResult::Pending);
    assert_eq!(buf.read_at(u128::MAX), ReadResult::Pending);
    buf.mark_complete();
    assert!(buf.is_complete());
    assert_eq!(buf.read_at(1), ReadResult::End);
    assert_eq!(buf.read_at(0), ReadResult::Sample(0.5));
}

#[test]
fn decode_events_drive_the_store() {
    let mut buf: AudioBuffer<f32> = AudioBuffer::new(fmt(8000, 2, 1));
    assert_eq!(buf.apply_decode_event(DecodeEvent::Decoded(vec![0.1, 0.2])), DecodeStep::Continue);
    assert_eq!(buf.apply_decode_event(DecodeEvent::OtherTrack), DecodeStep::Continue);
    assert_eq!(buf.apply_decode_event(DecodeEvent::DecodeError), DecodeStep::Continue);
    assert_eq!(buf.len(), 2);
    assert!(!buf.is_complete());
    assert_eq!(buf.apply_decode_event(DecodeEvent::Decoded(vec![0.3])), DecodeStep::Continue);
    assert_eq!(buf.len(), 3);
    assert_eq!(buf.read_at(2), ReadResult::Sample(0.3));
    assert_eq!(buf.apply_decode_event(DecodeEvent::EndOfInput), DecodeStep::Finished);
    assert!(buf.is_complete());
    assert_eq!(buf.len(), 3);
}

#[test]
fn fatal_decode_error_completes_store() {
    let mut buf: AudioBuffer<f32> = AudioBuffer::new(fmt(8000, 2, 1));
    buf.push_samples(vec![0.1]);
    assert_eq!(buf.apply_decode_event(DecodeEvent::Fatal), DecodeStep::Finished);
    assert!(buf.is_complete());
    assert_eq!(buf.read_at(0), ReadResult::Sample(0.1));
}

#[test]
fn format_from_first_audio_track() {
    let tracks = vec![track(true, Some(1), Some(1)), track(false, Some(44100), Some(2))];
    assert_eq!(first_audio_track(&tracks), Some(1));
    assert_eq!(
        StreamFormat::from_tracks(&tracks),
        Ok(StreamFormat { sample_rate: 44100, channels: 2, duration: 7 })
    );
}

#[test]
fn format_errors() {
    assert_eq!(StreamFormat::from_tracks(&vec![]), Err(OpenError::NoTrack));
    assert_eq!(StreamFormat::from_tracks(&vec![track(true, Some(1), Some(1))]), Err(OpenError::NoTrack));
    assert_eq!(first_audio_track(&vec![track(true, None, None)]), None);
    assert_eq!(StreamFormat::from_tracks(&vec![track(false, None, Some(2))]), Err(OpenError::MissingSampleRate));
    assert_eq!(StreamFormat::from_tracks(&vec![track(false, Some(44100), None)]), Err(OpenError::MissingChannels));
    assert_eq!(StreamFormat::from_tracks(&vec![track(false, Some(0), Some(2))]), Err(OpenError::ZeroSampleRate));
    assert_eq!(StreamFormat::from_tracks(&vec![track(false, Some(44100), Some(0))]), Err(OpenError::UnsupportedChannels));
    assert_eq!(
        StreamFormat::from_tracks(&vec![track(false, Some(44100), Some(70000))]),
        Err(OpenError::UnsupportedChannels)
    );
}

#[test]
fn controller_starts_at_zero() {
    let f = fmt(44100, 2, 10);
    let a = SeekableAudio::new(f);
    assert_eq!(a.get_position(), 0);
    assert_eq!(a.stream_format(), f);
}
