use audio_core::convert::SampleBlock;
use audio_core::negotiate::{
    negotiate, ChannelPreference, NativeEncoding, SampleEncoding, StreamConfig,
};
use audio_core::session::{
    select_capture_device, select_loopback_device, CaptureSession, DeviceChoice, LoopbackSupport,
    SessionRegistry,
};
use audio_core::CaptureError;

fn mono_f32_config(rate: u32) -> StreamConfig {
    StreamConfig { channel_count: 1, sample_rate: rate, encoding: SampleEncoding::F32 }
}

#[test]
fn low_native_rate_falls_back() {
    let c = negotiate(8000, 1, NativeEncoding::Supported(SampleEncoding::F32), ChannelPreference::Mono)
        .unwrap();
    assert_eq!(c.sample_rate, 44100);
}

#[test]
fn native_rate_kept_at_or_above_floor() {
    let c = negotiate(48000, 2, NativeEncoding::Supported(SampleEncoding::I16), ChannelPreference::Mono)
        .unwrap();
    assert_eq!(c.sample_rate, 48000);
    let c = negotiate(16000, 1, NativeEncoding::Supported(SampleEncoding::U16), ChannelPreference::Mono)
        .unwrap();
    assert_eq!(c.sample_rate, 16000);
}

#[test]
fn channel_negotiation_rules() {
    let mono = negotiate(44100, 2, NativeEncoding::Supported(SampleEncoding::F32), ChannelPreference::Mono)
        .unwrap();
    assert_eq!(mono.channel_count, 1);
    let stereo = negotiate(44100, 2, NativeEncoding::Supported(SampleEncoding::F32), ChannelPreference::Stereo)
        .unwrap();
    assert_eq!(stereo.channel_count, 2);
    let narrow = negotiate(44100, 1, NativeEncoding::Supported(SampleEncoding::F32), ChannelPreference::Stereo)
        .unwrap();
    assert_eq!(narrow.channel_count, 1);
}

#[test]
fn unsupported_encoding_rejected_at_negotiation() {
    let r = negotiate(44100, 2, NativeEncoding::Other, ChannelPreference::Mono);
    assert!(matches!(r, Err(CaptureError::UnsupportedFormatError)));
}

#[test]
fn named_device_found_in_inputs_first() {
    let inputs = vec!["Mic A".to_string(), "Mic B".to_string()];
    let outputs = vec!["Mic B".to_string()];
    let c = select_capture_device(&Some("Mic B".to_string()), &inputs, &outputs, &None).unwrap();
    assert!(matches!(c, DeviceChoice::InputAt { index: 1, .. }));
}

#[test]
fn named_device_found_in_outputs_second() {
    let inputs = vec!["Mic A".to_string()];
    let outputs = vec!["Speakers".to_string()];
    let c = select_capture_device(&Some("Speakers".to_string()), &inputs, &outputs, &None).unwrap();
    assert!(matches!(c, DeviceChoice::OutputAt { index: 0, .. }));
}

#[test]
fn named_device_absent_everywhere() {
    let inputs = vec!["Mic A".to_string()];
    let outputs = vec!["Speakers".to_string()];
    let r = select_capture_device(&Some("Ghost".to_string()), &inputs, &outputs, &None);
    assert!(matches!(r, Err(CaptureError::DeviceNotFoundError)));
}

#[test]
fn unnamed_request_takes_default_input() {
    let inputs = vec!["Mic A".to_string()];
    let c = select_capture_device(&None, &inputs, &vec![], &Some("Mic A".to_string())).unwrap();
    match c {
        DeviceChoice::DefaultInput { name } => assert_eq!(name, "Mic A"),
        _ => panic!("expected the default input"),
    }
    let r = select_capture_device(&None, &inputs, &vec![], &None);
    assert!(matches!(r, Err(CaptureError::DeviceNotFoundError)));
}

#[test]
fn loopback_selection_prefers_virtual_drivers() {
    let inputs = vec!["Mic A".to_string(), "BlackHole 2ch".to_string()];
    let c = select_loopback_device(LoopbackSupport::Supported, &"Mic A".to_string(), &inputs)
        .unwrap();
    // "Mic A" itself is a candidate and comes first in the pass.
    assert!(matches!(c, DeviceChoice::InputAt { index: 0, .. }));
    let c = select_loopback_device(LoopbackSupport::Supported, &"Ghost".to_string(), &inputs)
        .unwrap();
    assert!(matches!(c, DeviceChoice::InputAt { index: 1, .. }));
}

#[test]
fn loopback_selection_fails_without_candidate() {
    let inputs = vec!["Mic A".to_string()];
    let r = select_loopback_device(LoopbackSupport::Supported, &"Ghost".to_string(), &inputs);
    assert!(matches!(r, Err(CaptureError::DeviceNotFoundError)));
}

#[test]
fn loopback_unsupported_platform_fails_fixed() {
    let inputs = vec!["BlackHole 2ch".to_string()];
    let r = select_loopback_device(LoopbackSupport::Unsupported, &"BlackHole 2ch".to_string(), &inputs);
    assert!(matches!(r, Err(CaptureError::PlatformUnsupportedError)));
    assert_eq!(
        r.unwrap_err().message(),
        "System audio capture is not supported on this platform"
    );
}

#[test]
fn start_into_occupied_slot_fails_untouched() {
    let mut reg = SessionRegistry::new();
    let first = CaptureSession::new("Mic A".to_string(), mono_f32_config(48000));
    assert!(reg.start_microphone(first).is_ok());
    assert!(reg.microphone_running());

    let second = CaptureSession::new("Mic B".to_string(), mono_f32_config(44100));
    let r = reg.start_microphone(second);
    assert!(matches!(r, Err(CaptureError::AlreadyRunningError)));
    // The occupying session is untouched.
    let kept = reg.microphone_slot.as_ref().unwrap();
    assert_eq!(kept.device_name, "Mic A");
    assert_eq!(kept.config.sample_rate, 48000);
}

#[test]
fn stop_on_empty_slot_fails() {
    let mut reg = SessionRegistry::new();
    let r = reg.stop_microphone();
    assert!(matches!(r, Err(CaptureError::NotRunningError)));
    let r = reg.stop_loopback();
    assert!(matches!(r, Err(CaptureError::NotRunningError)));
    assert_eq!(r.unwrap_err().message(), "No audio capture running");
}

#[test]
fn slots_are_independent() {
    let mut reg = SessionRegistry::new();
    let mic = CaptureSession::new("Mic".to_string(), mono_f32_config(48000));
    let lb = CaptureSession::new("BlackHole 2ch".to_string(), mono_f32_config(44100));
    assert!(reg.start_microphone(mic).is_ok());
    assert!(reg.start_loopback(lb).is_ok());
    let stopped = reg.stop_microphone().unwrap();
    assert_eq!(stopped.device_name, "Mic");
    assert!(reg.loopback_running());
    let stopped = reg.stop_loopback().unwrap();
    assert_eq!(stopped.device_name, "BlackHole 2ch");
    assert!(!reg.loopback_running());
}

#[test]
fn end_to_end_three_blocks_of_half_scale() {
    // Start microphone capture on a device delivering three blocks of four
    // F32 samples, all 0.5; expect three 8-byte sequences, each sample
    // 0.5 * 32767 truncated (16383 = 0x3FFF), little-endian.
    let mut reg = SessionRegistry::new();
    let config = negotiate(
        48000,
        1,
        NativeEncoding::Supported(SampleEncoding::F32),
        ChannelPreference::Mono,
    )
    .unwrap();
    let session = CaptureSession::new("Mic A".to_string(), config);
    assert!(reg.start_microphone(session).is_ok());

    let half = (0.5 * 65536.0) as i32;
    let mut emitted: Vec<Vec<u8>> = Vec::new();
    for _ in 0..3 {
        let block = SampleBlock::F32(vec![half; 4]);
        let bytes = reg.microphone_slot.as_ref().unwrap().process_block(&block);
        emitted.push(bytes);
    }
    assert_eq!(emitted.len(), 3);
    for bytes in &emitted {
        assert_eq!(bytes.len(), 8);
        assert_eq!(bytes, &vec![0xFF, 0x3F, 0xFF, 0x3F, 0xFF, 0x3F, 0xFF, 0x3F]);
    }
    assert!(reg.stop_microphone().is_ok());
}

#[test]
fn every_error_variant_has_its_message() {
    assert_eq!(CaptureError::EnumerationError.message(), "Failed to enumerate audio devices");
    assert_eq!(CaptureError::DeviceNotFoundError.message(), "Audio device not found");
    assert_eq!(CaptureError::DeviceQueryError.message(), "Failed to query device capabilities");
    assert_eq!(CaptureError::UnsupportedFormatError.message(), "Unsupported sample format");
    assert_eq!(CaptureError::StreamOpenError.message(), "Failed to open audio stream");
    assert_eq!(CaptureError::AlreadyRunningError.message(), "Audio capture already running");
    assert_eq!(CaptureError::NotRunningError.message(), "No audio capture running");
    assert_eq!(
        CaptureError::PlatformUnsupportedError.message(),
        "System audio capture is not supported on this platform"
    );
}
