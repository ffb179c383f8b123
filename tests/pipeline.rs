use dasp_sample::{FromSample, ToSample};
use record_echo::channel::ExchangeChannel;
use record_echo::format::{check_formats, ConfigError, NativeFormat, SampleFormat, StreamConfig};
use record_echo::route::{render, CaptureRouter};
use record_echo::session::{Action, Event, Phase, Session, SessionError, SinkPhase};
use record_echo::wav::{wav_spec_from_config, SinkError, WavSampleFormat, WavSink, WavSpec};
use std::io::Cursor;

fn config(channels: u16, sample_rate: u32, sample_format: SampleFormat) -> StreamConfig {
    StreamConfig { channels, sample_rate, sample_format }
}

fn hound_spec(spec: &WavSpec) -> hound::WavSpec {
    hound::WavSpec {
        channels: spec.channels,
        sample_rate: spec.sample_rate,
        bits_per_sample: spec.bits_per_sample,
        sample_format: match spec.sample_format {
            WavSampleFormat::Int => hound::SampleFormat::Int,
            WavSampleFormat::Float => hound::SampleFormat::Float,
        },
    }
}

fn le_u32(bytes: &[u8], at: usize) -> u32 {
    u32::from_le_bytes([bytes[at], bytes[at + 1], bytes[at + 2], bytes[at + 3]])
}

/// Finds the length field of the data chunk.
fn data_chunk_len(bytes: &[u8]) -> u32 {
    let mut at = 12;
    while at + 8 <= bytes.len() {
        let len = le_u32(bytes, at + 4);
        if &bytes[at..at + 4] == b"data" {
            return len;
        }
        at += 8 + len as usize;
    }
    panic!("no data chunk");
}

/// Captures one buffer of Float32 samples: the router admits it to the
/// archive and forwards it to a new channel; the admitted samples are written
/// with hound to a WAV file in memory. Returns the file's bytes, the channel
/// and what the sink's finalize answered.
fn capture_f32(cfg: &StreamConfig, input: &[f32]) -> (Vec<u8>, ExchangeChannel<f32>, Result<u32, SinkError>) {
    let spec = wav_spec_from_config(cfg);
    let mut router = CaptureRouter::new(WavSink::new(spec));
    let mut chan = ExchangeChannel::new();
    let archived = router.route(input, |s: f32| s, &mut chan);
    let mut bytes = Vec::new();
    {
        let mut writer = hound::WavWriter::new(Cursor::new(&mut bytes), hound_spec(&spec)).unwrap();
        for &s in &input[..archived] {
            writer.write_sample(s).unwrap();
        }
        writer.finalize().unwrap();
    }
    let mut sink = router.into_sink();
    let finalized = sink.finalize();
    (bytes, chan, finalized)
}

#[test]
fn channel_keeps_order() {
    let mut chan = ExchangeChannel::new();
    for v in 1..=10u32 {
        chan.send(v);
    }
    assert_eq!(chan.len(), 10);
    let mut got = Vec::new();
    while let Some(v) = chan.recv() {
        got.push(v);
    }
    assert_eq!(got, (1..=10u32).collect::<Vec<_>>());
    assert!(chan.is_empty());
    assert_eq!(chan.recv(), None);
}

#[test]
fn empty_channel_renders_silence() {
    let mut chan: ExchangeChannel<f32> = ExchangeChannel::new();
    let out = render(&mut chan, 5, 0.0f32, |v: f32| v);
    assert_eq!(out, vec![0.0f32; 5]);
    let out16 = render(&mut chan, 3, 0.0f32, |v: f32| i16::from_sample_(v));
    assert_eq!(out16, vec![0i16; 3]);
}

#[test]
fn underrun_fills_the_rest_with_silence() {
    let mut chan = ExchangeChannel::new();
    chan.send(0.25f32);
    chan.send(-0.75f32);
    let out = render(&mut chan, 5, 0.0f32, |v: f32| v);
    assert_eq!(out, vec![0.25, -0.75, 0.0, 0.0, 0.0]);
    assert!(chan.is_empty());
}

#[test]
fn render_consumes_only_what_it_plays() {
    let mut chan = ExchangeChannel::new();
    for v in [1i32, 2, 3, 4, 5] {
        chan.send(v);
    }
    let out = render(&mut chan, 3, 0, |v: i32| v * 10);
    assert_eq!(out, vec![10, 20, 30]);
    assert_eq!(chan.len(), 2);
    assert_eq!(chan.recv(), Some(4));
    assert_eq!(chan.recv(), Some(5));
}

#[test]
fn route_forwards_converted_samples_in_order() {
    let spec = wav_spec_from_config(&config(2, 44_100, SampleFormat::I16));
    let mut router = CaptureRouter::new(WavSink::new(spec));
    let mut chan = ExchangeChannel::new();
    chan.send(0.5f32);
    let input: [i16; 4] = [0, 16_384, -16_384, i16::MIN];
    let archived = router.route(&input, |s: i16| -> f32 { s.to_sample_() }, &mut chan);
    assert_eq!(archived, 4);
    let out = render(&mut chan, 5, 0.0f32, |v: f32| v);
    assert_eq!(out, vec![0.5, 0.0, 0.5, -0.5, -1.0]);
    let sink = router.into_sink();
    assert_eq!(sink.samples(), 4);
    assert_eq!(sink.data_len(), 8);
}

#[test]
fn scenario_float_mono_buffer() {
    let cfg = config(1, 48_000, SampleFormat::F32);
    let spec = wav_spec_from_config(&cfg);
    assert_eq!(
        spec,
        WavSpec { channels: 1, sample_rate: 48_000, bits_per_sample: 32, sample_format: WavSampleFormat::Float }
    );
    let input = [0.5f32, -0.5, 1.0, -1.0];
    let (bytes, mut chan, finalized) = capture_f32(&cfg, &input);
    assert_eq!(finalized, Ok(16));
    assert_eq!(data_chunk_len(&bytes), 16);
    assert_eq!(le_u32(&bytes, 4) as usize, bytes.len() - 8);
    let mut reader = hound::WavReader::new(Cursor::new(&bytes)).unwrap();
    let rs = reader.spec();
    assert_eq!((rs.channels, rs.sample_rate, rs.bits_per_sample), (1, 48_000, 32));
    assert_eq!(rs.sample_format, hound::SampleFormat::Float);
    let back: Vec<f32> = reader.samples::<f32>().map(|s| s.unwrap()).collect();
    assert_eq!(back, input.to_vec());
    let played = render(&mut chan, 4, 0.0f32, |v: f32| v);
    assert_eq!(played, input.to_vec());
    assert!(chan.is_empty());
}

#[test]
fn float_header_declares_four_bytes_per_sample() {
    let cfg = config(1, 22_050, SampleFormat::F32);
    let input: Vec<f32> = (0..25).map(|i| i as f32 / 32.0 - 0.375).collect();
    let (bytes, mut chan, finalized) = capture_f32(&cfg, &input);
    assert_eq!(finalized, Ok(100));
    assert_eq!(data_chunk_len(&bytes), 100);
    assert_eq!(le_u32(&bytes, 4) as usize, bytes.len() - 8);
    let mut reader = hound::WavReader::new(Cursor::new(&bytes)).unwrap();
    assert_eq!(reader.len(), 25);
    let back: Vec<f32> = reader.samples::<f32>().map(|s| s.unwrap()).collect();
    assert_eq!(back, input);
    assert_eq!(chan.len(), 25);
    assert_eq!(chan.recv(), Some(-0.375));
}

#[test]
fn second_finalize_is_refused() {
    let spec = wav_spec_from_config(&config(1, 8_000, SampleFormat::I16));
    let mut sink = WavSink::new(spec);
    assert_eq!(sink.accept(3), Ok(3));
    assert_eq!(sink.finalize(), Ok(6));
    assert!(sink.is_finalized());
    assert_eq!(sink.finalize(), Err(SinkError::Finalized));
    assert_eq!(sink.accept(1), Err(SinkError::Finalized));
    assert_eq!(sink.samples(), 3);
    assert_eq!(sink.data_len(), 6);
}

#[test]
fn router_archives_nothing_after_finalize() {
    let spec = wav_spec_from_config(&config(1, 8_000, SampleFormat::I8));
    let mut sink = WavSink::new(spec);
    assert_eq!(sink.finalize(), Ok(0));
    let mut router = CaptureRouter::new(sink);
    let mut chan = ExchangeChannel::new();
    let archived = router.route(&[1i8, 2, 3], |s: i8| s, &mut chan);
    assert_eq!(archived, 0);
    assert_eq!(chan.len(), 3);
    assert_eq!(router.into_sink().samples(), 0);
}

#[test]
fn sink_stops_at_the_length_field_limit() {
    let spec = wav_spec_from_config(&config(1, 48_000, SampleFormat::I32));
    let mut sink = WavSink::new(spec);
    let room = (u32::MAX / 4) as usize;
    assert_eq!(sink.accept(room + 10), Ok(room));
    assert_eq!(sink.data_len(), u32::MAX - 3);
    assert_eq!(sink.accept(1), Err(SinkError::Full));
    assert_eq!(sink.accept(0), Ok(0));
    assert_eq!(sink.finalize(), Ok(u32::MAX - 3));
}

fn round_trip<T>(values: &[T]) -> Vec<T>
where
    T: ToSample<f32> + FromSample<f32> + Copy + Default,
{
    let spec = wav_spec_from_config(&config(1, 48_000, SampleFormat::I32));
    let mut router = CaptureRouter::new(WavSink::new(spec));
    let mut chan = ExchangeChannel::new();
    router.route(values, |s: T| -> f32 { s.to_sample_() }, &mut chan);
    render(&mut chan, values.len(), 0.0f32, |v: f32| -> T { T::from_sample_(v) })
}

#[test]
fn int8_and_int16_round_trip_exactly() {
    let all8: Vec<i8> = (i8::MIN..=i8::MAX).collect();
    assert_eq!(round_trip(&all8), all8);
    let all16: Vec<i16> = (i16::MIN..=i16::MAX).collect();
    assert_eq!(round_trip(&all16), all16);
}

#[test]
fn int32_round_trips_values_that_fit_the_float_mantissa() {
    let values: Vec<i32> = vec![0, 1, -1, 16_777_215, -16_777_216, i32::MIN, 1 << 30, -(1 << 30), 0x7fff_ff00];
    assert_eq!(round_trip(&values), values);
    assert_eq!(round_trip(&[i32::MAX]), vec![i32::MAX]);
}

#[test]
fn float32_round_trips_verbatim() {
    let values = vec![0.0f32, 0.5, -0.5, 1.0, -1.0, 1.0e-30, -0.123_456_79];
    assert_eq!(round_trip(&values), values);
}

#[test]
fn extremes_saturate_when_narrowed() {
    let spec = wav_spec_from_config(&config(1, 48_000, SampleFormat::I32));
    let mut router = CaptureRouter::new(WavSink::new(spec));
    let mut chan = ExchangeChannel::new();
    router.route(&[i32::MAX, i32::MIN], |s: i32| -> f32 { s.to_sample_() }, &mut chan);
    router.route(&[i16::MAX, i16::MIN], |s: i16| -> f32 { s.to_sample_() }, &mut chan);
    let out16 = render(&mut chan, 2, 0.0f32, |v: f32| i16::from_sample_(v));
    assert_eq!(out16, vec![i16::MAX, i16::MIN]);
    let out8 = render(&mut chan, 2, 0.0f32, |v: f32| i8::from_sample_(v));
    assert_eq!(out8, vec![i8::MAX, i8::MIN]);
    assert_eq!(render(&mut chan, 1, 0.0f32, |v: f32| i8::from_sample_(v)), vec![0]);
}

#[test]
fn formats_have_sizes_and_native_forms() {
    assert_eq!(SampleFormat::I8.sample_size(), 1);
    assert_eq!(SampleFormat::U16.sample_size(), 2);
    assert_eq!(SampleFormat::F32.sample_size(), 4);
    assert_eq!(SampleFormat::F64.sample_size(), 8);
    assert!(SampleFormat::F64.is_float());
    assert!(!SampleFormat::I32.is_float());
    assert_eq!(SampleFormat::I16.native(), Some(NativeFormat::Int16));
    assert_eq!(SampleFormat::U8.native(), None);
    assert_eq!(NativeFormat::Float32.sample_format(), SampleFormat::F32);
    assert_eq!(NativeFormat::Int8.sample_size(), 1);
}

#[test]
fn wav_spec_follows_the_capture_config() {
    let spec = wav_spec_from_config(&config(2, 44_100, SampleFormat::I16));
    assert_eq!(
        spec,
        WavSpec { channels: 2, sample_rate: 44_100, bits_per_sample: 16, sample_format: WavSampleFormat::Int }
    );
    let spec = wav_spec_from_config(&config(6, 96_000, SampleFormat::I32));
    assert_eq!(spec.bits_per_sample, 32);
    assert_eq!(spec.sample_format, WavSampleFormat::Int);
}

#[test]
fn unsupported_formats_are_configuration_errors() {
    let good = config(1, 48_000, SampleFormat::I16);
    assert_eq!(
        check_formats(&config(1, 48_000, SampleFormat::U8), &good),
        Err(ConfigError::UnsupportedInput(SampleFormat::U8))
    );
    assert_eq!(
        check_formats(&good, &config(1, 48_000, SampleFormat::F64)),
        Err(ConfigError::UnsupportedOutput(SampleFormat::F64))
    );
    assert_eq!(
        check_formats(&good, &config(2, 44_100, SampleFormat::F32)),
        Ok((NativeFormat::Int16, NativeFormat::Float32))
    );
}

#[test]
fn session_starts_and_stops_in_order() {
    let cap = config(1, 48_000, SampleFormat::F32);
    let mut s = Session::new(cap, cap);
    assert_eq!(s.phase(), Phase::Idle);
    assert_eq!(s.step(Event::Begin), Action::CreateSink(wav_spec_from_config(&cap)));
    assert_eq!(s.step(Event::CaptureStarted), Action::Nothing);
    assert_eq!(s.step(Event::SinkCreated), Action::StartCapture(NativeFormat::Float32));
    assert_eq!(s.step(Event::PlaybackStarted), Action::Nothing);
    assert_eq!(s.step(Event::CaptureStarted), Action::StartPlayback(NativeFormat::Float32));
    assert_eq!(s.step(Event::StreamsStopped), Action::Nothing);
    assert_eq!(s.step(Event::PlaybackStarted), Action::AwaitStop);
    assert_eq!(s.phase(), Phase::Running);
    assert_eq!(s.step(Event::StopRequested), Action::StopStreams);
    assert_eq!(s.phase(), Phase::ShuttingDown);
    assert_eq!(s.step(Event::StreamsStopped), Action::FinalizeSink);
    assert_eq!(s.phase(), Phase::Stopped);
    assert_eq!(s.sink_phase(), SinkPhase::Finalized);
    assert_eq!(s.step(Event::StreamsStopped), Action::Nothing);
    assert_eq!(s.step(Event::StopRequested), Action::Nothing);
    assert!(!s.stream_failed());
}

#[test]
fn session_with_unsupported_format_creates_nothing() {
    let cap = config(2, 44_100, SampleFormat::U16);
    let mut s = Session::new(cap, config(2, 44_100, SampleFormat::I16));
    assert_eq!(
        s.step(Event::Begin),
        Action::Abort(SessionError::Config(ConfigError::UnsupportedInput(SampleFormat::U16)))
    );
    assert_eq!(s.phase(), Phase::Stopped);
    assert_eq!(s.sink_phase(), SinkPhase::Absent);
    assert_eq!(s.step(Event::Begin), Action::Nothing);
}

#[test]
fn session_gives_up_when_the_file_cannot_be_created() {
    let cap = config(1, 16_000, SampleFormat::I8);
    let mut s = Session::new(cap, cap);
    assert!(matches!(s.step(Event::Begin), Action::CreateSink(_)));
    assert_eq!(s.step(Event::SinkFailed), Action::Abort(SessionError::SinkCreate));
    assert_eq!(s.phase(), Phase::Stopped);
    assert_eq!(s.sink_phase(), SinkPhase::Absent);
}

#[test]
fn session_finalizes_once_after_a_stream_failure() {
    let cap = config(2, 44_100, SampleFormat::I16);
    let mut s = Session::new(cap, cap);
    s.step(Event::Begin);
    assert_eq!(s.step(Event::SinkCreated), Action::StartCapture(NativeFormat::Int16));
    assert_eq!(s.step(Event::StreamFailed), Action::StopStreams);
    assert!(s.stream_failed());
    let mut finalizes = 0;
    for ev in [Event::StreamsStopped, Event::StreamsStopped, Event::StopRequested, Event::StreamsStopped] {
        if s.step(ev) == Action::FinalizeSink {
            finalizes += 1;
        }
    }
    assert_eq!(finalizes, 1);
    assert_eq!(s.sink_phase(), SinkPhase::Finalized);
}
