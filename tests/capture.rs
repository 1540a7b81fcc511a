use poptranscribe::capture::{
    describe_devices, normalize_chunk, normalize_u16_chunk, resolve_input_device,
    select_input_config, AudioCapturer, CaptureError, CaptureMode, CapturePhase, DeviceChoice,
    FormatRange, SampleEncoding, StreamFormat,
};

fn range(min_rate: u32, max_rate: u32, channels: u16, encoding: SampleEncoding) -> FormatRange {
    FormatRange { min_rate, max_rate, channels, encoding }
}

#[test]
fn configured_device_is_found_by_name() {
    let names = vec!["Built-in".to_string(), "USB Mic".to_string(), "USB Mic".to_string()];
    let r = resolve_input_device(&Some("USB Mic".to_string()), &names, true);
    assert_eq!(r, Ok(DeviceChoice::Listed(1)));
}

#[test]
fn missing_device_falls_back_to_default() {
    let names = vec!["Built-in".to_string()];
    assert_eq!(resolve_input_device(&Some("Gone".to_string()), &names, true), Ok(DeviceChoice::Default));
    assert_eq!(resolve_input_device(&None, &names, true), Ok(DeviceChoice::Default));
}

#[test]
fn no_device_at_all_is_not_found() {
    let names: Vec<String> = vec![];
    assert_eq!(resolve_input_device(&Some("x".to_string()), &names, false), Err(CaptureError::NotFound));
}

#[test]
fn format_selection_prefers_i16_mono() {
    let ranges = vec![
        range(8000, 48000, 2, SampleEncoding::F32),
        range(16000, 16000, 1, SampleEncoding::F32),
        range(8000, 48000, 2, SampleEncoding::I16),
        range(8000, 48000, 1, SampleEncoding::I16),
        range(44100, 48000, 1, SampleEncoding::I16),
    ];
    assert_eq!(select_input_config(&ranges), Some(3));
}

#[test]
fn format_selection_keeps_first_of_equal_scores() {
    let ranges = vec![
        range(8000, 48000, 1, SampleEncoding::F32),
        range(8000, 48000, 2, SampleEncoding::I16),
    ];
    assert_eq!(select_input_config(&ranges), Some(0));
}

#[test]
fn format_selection_without_canonical_rate_is_none() {
    let ranges = vec![range(44100, 48000, 1, SampleEncoding::I16)];
    assert_eq!(select_input_config(&ranges), None);
    assert_eq!(select_input_config(&vec![]), None);
}

#[test]
fn callback_drops_data_when_not_capturing() {
    assert_eq!(normalize_chunk(false, &vec![1, 2, 3, 4], 2, 16000), None);
}

#[test]
fn callback_downmixes_and_resamples() {
    let data: Vec<i16> = vec![100, 300, 0, 0, 50, 50, 10, 30];
    assert_eq!(normalize_chunk(true, &data, 2, 32000), Some(vec![200, 50]));
    assert_eq!(normalize_chunk(true, &data, 2, 16000), Some(vec![200, 0, 50, 20]));
}

#[test]
fn callback_recentres_unsigned_data() {
    let data: Vec<u16> = vec![32768, 32770, 0, 0];
    assert_eq!(normalize_u16_chunk(true, &data, 2, 16000), Some(vec![1, -32768]));
    assert_eq!(normalize_u16_chunk(false, &data, 2, 16000), None);
}

#[test]
fn stop_twice_is_safe() {
    let mut c = AudioCapturer::new(CaptureMode::InPerson, None);
    let fmt = StreamFormat { sample_rate: 48000, channels: 2, encoding: SampleEncoding::F32 };
    assert_eq!(c.start(fmt, false), Ok(16000));
    assert!(c.is_capturing());
    assert!(c.mic_open);
    c.stop();
    assert!(!c.is_capturing());
    c.stop();
    assert!(!c.is_capturing());
    assert!(!c.mic_open);
    assert_eq!(c.phase, CapturePhase::Stopped);
}

#[test]
fn stop_before_start_is_safe() {
    let mut c = AudioCapturer::new(CaptureMode::Visio, Some("Mic".to_string()));
    c.stop();
    c.stop();
    assert!(!c.is_capturing());
    assert_eq!(c.phase, CapturePhase::Stopped);
}

#[test]
fn stopped_handle_cannot_restart() {
    let mut c = AudioCapturer::new(CaptureMode::InPerson, None);
    c.stop();
    let fmt = StreamFormat { sample_rate: 16000, channels: 1, encoding: SampleEncoding::I16 };
    assert_eq!(c.start(fmt, true), Err(CaptureError::InvalidState));
}

#[test]
fn mixed_source_needs_system_audio() {
    let mut c = AudioCapturer::new(CaptureMode::Visio, None);
    let fmt = StreamFormat { sample_rate: 16000, channels: 1, encoding: SampleEncoding::I16 };
    assert_eq!(c.start(fmt, false), Err(CaptureError::Unsupported));
    assert!(!c.is_capturing());
    assert_eq!(c.start(fmt, true), Ok(16000));
    assert!(c.system_open && c.mic_open);
}

#[test]
fn unconvertible_format_is_refused() {
    let mut c = AudioCapturer::new(CaptureMode::InPerson, None);
    let fmt = StreamFormat { sample_rate: 16000, channels: 1, encoding: SampleEncoding::Other };
    assert_eq!(c.start(fmt, true), Err(CaptureError::UnsupportedFormat));
    let none = StreamFormat { sample_rate: 16000, channels: 0, encoding: SampleEncoding::I16 };
    assert_eq!(c.start(none, true), Err(CaptureError::UnsupportedFormat));
}

#[test]
fn devices_mark_the_default() {
    let names = vec!["A".to_string(), "B".to_string()];
    let d = describe_devices(&names, &Some("B".to_string()));
    assert_eq!(d.len(), 2);
    assert_eq!(d[0].name, "A");
    assert!(!d[0].is_default);
    assert!(d[1].is_default);
    let none = describe_devices(&names, &None);
    assert!(!none[0].is_default && !none[1].is_default);
}
