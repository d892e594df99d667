//! The audio backend: clamped PCM conversion, the WAV rendering (read
//! back with an independent WAV reader), and the session-state errors.

use std::io::Cursor;
use voice_input::audio::AudioBackend;
use voice_input::audio::AudioData;
use voice_input::audio::AudioError;
use voice_input::audio::RecordMode;
use voice_input::audio::clamp_sample;
use voice_input::audio::encode_wav;

/// The fixed-point form of a floating sample: full scale is 32768.
fn frame_of(sample: f64) -> i64 {
    (sample * 32768.0).round() as i64
}

#[test]
fn scenario_floating_samples_clamp_before_conversion() {
    let frames: Vec<i64> = [1.5f64, -2.0, 0.3].iter().map(|s| frame_of(*s)).collect();
    assert_eq!(frames, vec![49152, -65536, 9830]);

    let pcm: Vec<i16> = frames.iter().map(|f| clamp_sample(*f)).collect();
    assert_eq!(pcm, vec![32767, -32768, 9830]);
}

#[test]
fn memory_finalize_yields_wav_an_independent_reader_accepts() {
    let frames: Vec<i64> = [1.5f64, -2.0, 0.3].iter().map(|s| frame_of(*s)).collect();
    let mut backend = AudioBackend::new(RecordMode::Memory, 48000);
    backend.start().unwrap();
    assert!(backend.push_frames(&frames));
    let data = backend.stop().unwrap();
    let bytes = match data {
        AudioData::Memory(b) => b,
        AudioData::File(_) => panic!("memory mode"),
    };

    let reader = hound::WavReader::new(Cursor::new(&bytes)).expect("well-formed WAV");
    let spec = reader.spec();
    assert_eq!(spec.channels, 1);
    assert_eq!(spec.sample_rate, 48000);
    assert_eq!(spec.bits_per_sample, 16);
    assert_eq!(spec.sample_format, hound::SampleFormat::Int);
    let samples: Vec<i16> = reader.into_samples::<i16>().map(|s| s.unwrap()).collect();
    assert_eq!(samples, vec![32767, -32768, 9830]);
}

#[test]
fn wav_bytes_carry_the_canonical_header() {
    let bytes = encode_wav(&vec![0, -1], 16000);
    assert_eq!(bytes.len(), 44 + 4);
    assert_eq!(&bytes[0..4], b"RIFF");
    assert_eq!(&bytes[8..12], b"WAVE");
    assert_eq!(&bytes[12..16], b"fmt ");
    assert_eq!(&bytes[36..40], b"data");
    // data size: 4 bytes of samples
    assert_eq!(&bytes[40..44], &[4, 0, 0, 0]);
    // 16000 Hz, byte rate 32000
    assert_eq!(&bytes[24..28], &[0x80, 0x3e, 0, 0]);
    assert_eq!(&bytes[28..32], &[0x00, 0x7d, 0, 0]);
    // samples: 0, then -1 as two's complement
    assert_eq!(&bytes[44..48], &[0, 0, 0xff, 0xff]);
}

#[test]
fn start_twice_reports_backend_busy() {
    let mut backend = AudioBackend::new(RecordMode::Memory, 16000);
    backend.start().unwrap();
    assert!(matches!(backend.start(), Err(AudioError::BackendBusy)));
}

#[test]
fn stop_without_start_reports_not_recording() {
    let mut backend = AudioBackend::new(RecordMode::Memory, 16000);
    assert!(matches!(backend.stop(), Err(AudioError::NotRecording)));
}

#[test]
fn file_mode_finalize_returns_the_path() {
    let mut backend = AudioBackend::new(RecordMode::File("take.wav".to_string()), 16000);
    backend.start().unwrap();
    let data = backend.stop().unwrap();
    match data {
        AudioData::File(p) => assert_eq!(p, "take.wav"),
        AudioData::Memory(_) => panic!("file mode"),
    }
}

#[test]
fn audio_error_messages() {
    assert_eq!(AudioError::DeviceUnavailable.message(), "no input device available");
    assert_eq!(AudioError::BackendBusy.message(), "already capturing");
    assert_eq!(AudioError::NotRecording.message(), "not recording");
    assert_eq!(AudioError::NoInputHost.message(), "no input host available");
}
