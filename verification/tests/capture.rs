use typr::capture::{
    AudioArtifact, CaptureEngine, CaptureError, DeviceDescriptor, EngineState, SampleFormat,
    sample_from_u16,
};

fn mono_device() -> DeviceDescriptor {
    DeviceDescriptor { sample_format: SampleFormat::I16, sample_rate: 44100, channels: 1 }
}

fn start_recording(engine: &mut CaptureEngine) {
    let r = engine.start(Some(mono_device()));
    assert!(r.is_ok());
    assert!(engine.is_recording());
}

fn read_wav(artifact: &AudioArtifact) -> (hound::WavSpec, Vec<i16>) {
    let cursor = std::io::Cursor::new(artifact.data.clone());
    let mut reader = hound::WavReader::new(cursor).expect("artifact must parse as WAV");
    let spec = reader.spec();
    let samples: Vec<i16> = reader.samples::<i16>().map(|s| s.unwrap()).collect();
    (spec, samples)
}

#[test]
fn start_then_stop_yields_playable_artifact() {
    let mut engine = CaptureEngine::new();
    start_recording(&mut engine);
    let artifact = engine.stop().unwrap().expect("a live session must finalize");
    let (spec, samples) = read_wav(&artifact);
    assert_eq!(spec.channels, 1);
    assert_eq!(spec.sample_rate, 44100);
    assert_eq!(spec.bits_per_sample, 16);
    assert_eq!(spec.sample_format, hound::SampleFormat::Int);
    assert_eq!(samples.len(), 0);
    assert_eq!(artifact.byte_size(), 44);
}

#[test]
fn captured_samples_round_trip_through_the_artifact() {
    let mut engine = CaptureEngine::new();
    start_recording(&mut engine);
    engine.push_samples(&vec![0i16, 100, -100, i16::MAX, i16::MIN]);
    engine.push_samples(&vec![7i16]);
    let artifact = engine.stop().unwrap().unwrap();
    let (_, samples) = read_wav(&artifact);
    assert_eq!(samples, vec![0i16, 100, -100, i16::MAX, i16::MIN, 7]);
    assert_eq!(artifact.byte_size(), 44 + 12);
}

#[test]
fn artifact_header_is_structurally_valid() {
    let mut engine = CaptureEngine::new();
    start_recording(&mut engine);
    engine.push_samples(&vec![1i16, 2]);
    let artifact = engine.stop().unwrap().unwrap();
    let b = &artifact.data;
    assert_eq!(&b[0..4], b"RIFF");
    assert_eq!(u32::from_le_bytes([b[4], b[5], b[6], b[7]]) as usize, b.len() - 8);
    assert_eq!(&b[8..12], b"WAVE");
    assert_eq!(&b[12..16], b"fmt ");
    assert_eq!(u16::from_le_bytes([b[20], b[21]]), 1);
    assert_eq!(&b[36..40], b"data");
    assert_eq!(u32::from_le_bytes([b[40], b[41], b[42], b[43]]) as usize, b.len() - 44);
}

#[test]
fn start_while_recording_is_refused_and_changes_nothing() {
    let mut engine = CaptureEngine::new();
    start_recording(&mut engine);
    let path_before = engine.session.as_ref().unwrap().path.clone();
    let r = engine.start(Some(mono_device()));
    assert_eq!(r, Err(CaptureError::AlreadyRecording));
    assert!(engine.is_recording());
    assert_eq!(engine.session.as_ref().unwrap().path, path_before);
    assert!(engine.stop().unwrap().is_some());
}

#[test]
fn stop_while_idle_is_a_quiet_no_op() {
    let mut engine = CaptureEngine::new();
    assert_eq!(engine.stop().map(|a| a.is_none()), Ok(true));
    assert_eq!(engine.stop().map(|a| a.is_none()), Ok(true));
    assert_eq!(engine.state, EngineState::Idle);
}

#[test]
fn missing_device_is_reported_synchronously() {
    let mut engine = CaptureEngine::new();
    assert_eq!(engine.start(None), Err(CaptureError::DeviceUnavailable));
    assert!(!engine.is_recording());
}

#[test]
fn unsupported_format_fails_fast_and_names_the_supported_ones() {
    let mut engine = CaptureEngine::new();
    let device = DeviceDescriptor {
        sample_format: SampleFormat::Other,
        sample_rate: 48000,
        channels: 2,
    };
    let r = engine.start(Some(device));
    assert_eq!(r, Err(CaptureError::UnsupportedSampleFormat));
    let msg = CaptureError::UnsupportedSampleFormat.message();
    assert!(msg.contains("i16") && msg.contains("u16") && msg.contains("f32"));
}

#[test]
fn zero_channel_device_is_unavailable() {
    let mut engine = CaptureEngine::new();
    let device = DeviceDescriptor { sample_format: SampleFormat::I16, sample_rate: 44100, channels: 0 };
    assert_eq!(engine.start(Some(device)), Err(CaptureError::DeviceUnavailable));
}

#[test]
fn device_loss_is_observed_by_the_next_stop() {
    let mut engine = CaptureEngine::new();
    start_recording(&mut engine);
    engine.push_samples(&vec![5i16]);
    engine.device_error();
    assert!(!engine.is_recording());
    assert_eq!(engine.stop().err(), Some(CaptureError::DeviceLost));
    assert_eq!(engine.state, EngineState::Idle);
    assert_eq!(engine.stop().map(|a| a.is_none()), Ok(true));
}

#[test]
fn samples_are_not_accepted_while_idle() {
    let mut engine = CaptureEngine::new();
    engine.push_samples(&vec![1i16, 2, 3]);
    assert_eq!(engine.state, EngineState::Idle);
    assert!(engine.session.is_none());
}

#[test]
fn artifact_path_is_timestamped_under_the_recording_directory() {
    let mut engine = CaptureEngine::new();
    start_recording(&mut engine);
    let artifact = engine.stop().unwrap().unwrap();
    assert!(artifact.path.starts_with("/tmp/typr/recording_"));
    assert!(artifact.path.ends_with(".wav"));
    let stamp = &artifact.path["/tmp/typr/recording_".len()..artifact.path.len() - ".wav".len()];
    assert!(stamp.len() >= 15);
    assert_eq!(stamp.chars().nth(stamp.len() - 7), Some('_'));
    assert!(stamp
        .chars()
        .enumerate()
        .all(|(i, c)| c.is_ascii_digit() || (c == '_' && i == stamp.len() - 7)));
}

#[test]
fn an_overrun_sink_reports_a_failed_finalize() {
    let mut engine = CaptureEngine { state: EngineState::SinkOverrun, session: None };
    assert_eq!(engine.stop().err(), Some(CaptureError::FinalizeFailed));
    assert_eq!(engine.state, EngineState::Idle);
}

#[test]
fn unsigned_samples_are_recentred() {
    assert_eq!(sample_from_u16(0), i16::MIN);
    assert_eq!(sample_from_u16(32768), 0);
    assert_eq!(sample_from_u16(65535), i16::MAX);
    assert_eq!(sample_from_u16(32769), 1);
}

#[test]
fn stereo_artifacts_carry_their_geometry() {
    let mut engine = CaptureEngine::new();
    let device = DeviceDescriptor { sample_format: SampleFormat::F32, sample_rate: 48000, channels: 2 };
    assert!(engine.start(Some(device)).is_ok());
    engine.push_samples(&vec![10i16, -10, 20, -20]);
    let artifact = engine.stop().unwrap().unwrap();
    let (spec, samples) = read_wav(&artifact);
    assert_eq!(spec.channels, 2);
    assert_eq!(spec.sample_rate, 48000);
    assert_eq!(samples, vec![10i16, -10, 20, -20]);
}
