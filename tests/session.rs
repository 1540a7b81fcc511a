use poptranscribe::capture::{AudioCapturer, CaptureMode, CapturePhase, SampleEncoding, StreamFormat};
use poptranscribe::session::{audio_level, next_loop_action, LoopAction, OrchestrationError, Received, Recorder};
use poptranscribe::summary::{build_transcript, TranscriptLine};

fn started_capturer() -> AudioCapturer {
    let mut c = AudioCapturer::new(CaptureMode::InPerson, None);
    let fmt = StreamFormat { sample_rate: 16000, channels: 1, encoding: SampleEncoding::I16 };
    c.start(fmt, false).unwrap();
    c
}

#[test]
fn second_start_is_rejected() {
    let mut r = Recorder::new();
    assert_eq!(r.start_recording("first".to_string(), started_capturer(), 16000), Ok(()));
    r.record_chunk(&vec![1, 2, 3]);
    assert_eq!(
        r.start_recording("second".to_string(), started_capturer(), 48000),
        Err(OrchestrationError::AlreadyActive)
    );
    assert!(r.is_active_id("first"));
    let s = r.active.as_ref().unwrap();
    assert_eq!(s.audio_samples, vec![1, 2, 3]);
    assert_eq!(s.sample_rate, 16000);
}

#[test]
fn mismatched_stop_keeps_the_recording() {
    let mut r = Recorder::new();
    r.start_recording("abc".to_string(), started_capturer(), 16000).unwrap();
    r.record_chunk(&vec![7]);
    assert!(matches!(r.stop_recording("xyz"), Err(OrchestrationError::IdMismatch)));
    assert!(r.is_active_id("abc"));
    let res = r.stop_recording("abc").ok().unwrap();
    assert_eq!(res.samples, vec![7]);
    assert_eq!(res.sample_rate, 16000);
    assert_eq!(res.capturer.phase, CapturePhase::Stopped);
    assert!(!res.capturer.is_capturing());
}

#[test]
fn stop_without_recording_is_refused() {
    let mut r = Recorder::new();
    assert!(matches!(r.stop_recording("abc"), Err(OrchestrationError::NoActiveRecording)));
}

#[test]
fn start_succeeds_after_stop() {
    let mut r = Recorder::new();
    r.start_recording("one".to_string(), started_capturer(), 16000).unwrap();
    assert!(r.stop_recording("one").is_ok());
    assert!(!r.is_active());
    assert_eq!(r.start_recording("two".to_string(), started_capturer(), 16000), Ok(()));
    assert!(r.is_active_id("two"));
}

#[test]
fn chunks_accumulate_in_order() {
    let mut r = Recorder::new();
    assert_eq!(r.record_chunk(&vec![1]), None);
    r.start_recording("s".to_string(), started_capturer(), 16000).unwrap();
    assert_eq!(r.record_chunk(&vec![1, 2]), Some(0));
    assert_eq!(r.record_chunk(&vec![]), None);
    assert_eq!(r.record_chunk(&vec![i16::MAX]), Some(100));
    assert_eq!(r.active.as_ref().unwrap().audio_samples, vec![1, 2, i16::MAX]);
}

#[test]
fn loudness_levels() {
    assert_eq!(audio_level(&vec![]), 0);
    assert_eq!(audio_level(&vec![0, 0]), 0);
    assert_eq!(audio_level(&vec![i16::MAX]), 100);
    assert_eq!(audio_level(&vec![i16::MIN]), 100);
    assert_eq!(audio_level(&vec![16384, -16384]), 50);
    assert_eq!(audio_level(&vec![3277]), 10);
    assert_eq!(audio_level(&vec![3276]), 9);
}

#[test]
fn polling_loop_decisions() {
    assert_eq!(next_loop_action(true, Received::Chunk(10)), LoopAction::Finish);
    assert_eq!(next_loop_action(false, Received::Chunk(10)), LoopAction::Forward);
    assert_eq!(next_loop_action(false, Received::Chunk(0)), LoopAction::Skip);
    assert_eq!(next_loop_action(false, Received::Empty), LoopAction::Idle);
    assert_eq!(next_loop_action(false, Received::Disconnected), LoopAction::Finish);
}

#[test]
fn transcript_joins_lines() {
    let lines = vec![
        TranscriptLine { speaker: Some("Speaker 1".to_string()), text: "Bonjour".to_string() },
        TranscriptLine { speaker: None, text: "Salut".to_string() },
    ];
    assert_eq!(build_transcript(&lines, &None), "Speaker 1: Bonjour\nSalut");
    assert_eq!(build_transcript(&lines, &Some("en cours".to_string())), "Speaker 1: Bonjour\nSalut\nen cours");
    assert_eq!(build_transcript(&lines, &Some(String::new())), "Speaker 1: Bonjour\nSalut");
    assert_eq!(build_transcript(&vec![], &Some("live".to_string())), "live");
    assert_eq!(build_transcript(&vec![], &None), "");
}
