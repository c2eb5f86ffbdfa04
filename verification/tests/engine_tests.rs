use audiovibe_core::engine::{AudioEngine, AudioInfo, EngineError, PlaybackState};
use audiovibe_core::sink::SimSink;

fn engine() -> AudioEngine<SimSink> {
    AudioEngine::new(SimSink::new())
}

fn loaded_engine() -> AudioEngine<SimSink> {
    let mut e = engine();
    e.load_file("/books/one.mp3").unwrap();
    e
}

#[test]
fn test_audio_engine_creation() {
    let e = engine();
    let status = e.get_status(0);
    assert!(matches!(status.state, PlaybackState::Stopped));
    assert!(status.current_file.is_none());
}

#[test]
fn test_audio_engine_volume_control() {
    let mut e = engine();

    e.set_volume(50);
    assert_eq!(e.get_volume(), 50);

    e.set_volume(150);
    assert_eq!(e.get_volume(), 100);

    e.set_volume(-50);
    assert_eq!(e.get_volume(), 0);
}

#[test]
fn test_audio_engine_speed_control() {
    let mut e = engine();

    e.set_speed(150, 0);
    assert_eq!(e.get_speed(), 150);

    e.set_speed(500, 0);
    assert_eq!(e.get_speed(), 400);

    e.set_speed(10, 0);
    assert_eq!(e.get_speed(), 25);
}

#[test]
fn test_playback_status() {
    let e = engine();
    let status = e.get_status(0);

    assert!(matches!(status.state, PlaybackState::Stopped));
    assert_eq!(status.volume, 100);
    assert_eq!(status.speed, 100);
    assert!(status.current_file.is_none());
}

#[test]
fn test_load_resets_clock() {
    let mut e = engine();
    e.load_file("/books/one.mp3").unwrap();
    assert_eq!(e.get_position(123_456), 0);
    let status = e.get_status(123_456);
    assert!(matches!(status.state, PlaybackState::Stopped));
    assert_eq!(status.current_file.as_deref(), Some("/books/one.mp3"));
}

#[test]
fn test_play_without_load_fails() {
    let mut e = engine();
    assert_eq!(e.play(0), Err(EngineError::NoFileLoaded));
}

#[test]
fn test_load_decode_failure_reported() {
    let mut sink = SimSink::new();
    sink.set_decode_ok(false);
    let mut e = AudioEngine::new(sink);
    assert_eq!(e.load_file("/books/bad.mp3"), Err(EngineError::DecodeFailed));
    // a failed load leaves nothing loaded
    assert!(e.get_status(0).current_file.is_none());
}

#[test]
fn test_position_advances_while_playing() {
    let mut e = loaded_engine();
    e.play(0).unwrap();
    assert_eq!(e.get_position(0), 0);
    assert_eq!(e.get_position(5_000), 5);
    assert_eq!(e.get_position(65_000), 65);
}

#[test]
fn test_stop_resets_position() {
    let mut e = loaded_engine();
    e.play(0).unwrap();
    assert_eq!(e.get_position(30_000), 30);
    e.stop();
    assert_eq!(e.get_position(30_000), 0);
    assert_eq!(e.get_position(99_999_999), 0);
    assert!(matches!(e.get_status(0).state, PlaybackState::Stopped));
}

#[test]
fn test_pause_freezes_position() {
    let mut e = loaded_engine();
    e.play(0).unwrap();
    e.pause(30_000);
    assert_eq!(e.get_position(30_000), 30);
    assert_eq!(e.get_position(95_000), 30);
    assert!(matches!(e.get_status(31_000).state, PlaybackState::Paused));
}

#[test]
fn test_resume_excludes_paused_time() {
    // play, pause at 30s, wait 10s paused, resume: still at 30s
    let mut e = loaded_engine();
    e.play(0).unwrap();
    e.pause(30_000);
    e.play(40_000).unwrap();
    assert_eq!(e.get_position(40_000), 30);
    // and it keeps advancing from there
    assert_eq!(e.get_position(45_000), 35);
}

#[test]
fn test_seek_native_path() {
    let mut e = loaded_engine();
    assert_eq!(e.seek(120, 1_000), Ok(()));
    assert_eq!(e.get_position(1_000), 120);
    // frozen while stopped
    assert_eq!(e.get_position(50_000), 120);
}

#[test]
fn test_seek_fallback_path() {
    let mut sink = SimSink::new();
    sink.set_native_seek(false);
    let mut e = AudioEngine::new(sink);
    e.load_file("/books/one.m4b").unwrap();
    e.play(0).unwrap();
    assert_eq!(e.seek(120, 10_000), Ok(()));
    // still playing, and the position starts from the target
    assert!(matches!(e.get_status(10_000).state, PlaybackState::Playing));
    assert_eq!(e.get_position(10_000), 120);
    assert_eq!(e.get_position(15_000), 125);
}

#[test]
fn test_seek_fallback_from_paused_stops() {
    let mut sink = SimSink::new();
    sink.set_native_seek(false);
    let mut e = AudioEngine::new(sink);
    e.load_file("/books/one.m4b").unwrap();
    e.play(0).unwrap();
    e.pause(5_000);
    assert_eq!(e.seek(60, 6_000), Ok(()));
    assert!(matches!(e.get_status(6_000).state, PlaybackState::Stopped));
    assert_eq!(e.get_position(6_000), 60);
}

#[test]
fn test_seek_clamps_negative() {
    let mut e = loaded_engine();
    e.seek(50, 1_000).unwrap();
    e.seek(-7, 2_000).unwrap();
    assert_eq!(e.get_position(2_000), 0);
}

#[test]
fn test_seek_without_load_fails() {
    let mut e = engine();
    assert_eq!(e.seek(10, 0), Err(EngineError::NoFileLoaded));
}

#[test]
fn test_seek_fallback_failure_ends_stopped() {
    // only the first decode succeeds: the reload behind the fallback seek
    // fails, and the engine must still end stopped with a zero clock
    let mut sink = SimSink::new();
    sink.set_native_seek(false);
    sink.set_decode_budget(1);
    let mut e = AudioEngine::new(sink);
    e.load_file("/books/one.m4b").unwrap();
    e.play(0).unwrap();
    assert_eq!(e.seek(10, 1_000), Err(EngineError::SeekFailed));
    assert!(matches!(e.get_status(1_000).state, PlaybackState::Stopped));
    assert_eq!(e.get_position(99_000), 0);
}

#[test]
fn test_speed_change_is_prospective() {
    // load a 10-minute file, play 5 minutes at speed 1.0 (position 300),
    // then 60 more seconds at speed 2.0: position 300 + 120 = 420
    let mut sink = SimSink::new();
    let mut info = AudioInfo::defaults();
    info.duration = Some(600);
    sink.set_probe_result(Some(info));
    let mut e = AudioEngine::new(sink);
    e.load_file("/books/ten_minutes.mp3").unwrap();
    assert_eq!(e.get_status(0).duration, Some(600));
    e.play(0).unwrap();
    assert_eq!(e.get_position(300_000), 300);
    e.set_speed(200, 300_000);
    // unchanged at the instant of the change
    assert_eq!(e.get_position(300_000), 300);
    assert_eq!(e.get_position(360_000), 420);
}

#[test]
fn test_speed_change_while_paused() {
    let mut e = loaded_engine();
    e.play(0).unwrap();
    e.pause(10_000);
    e.set_speed(400, 20_000);
    assert_eq!(e.get_position(20_000), 10);
    assert_eq!(e.get_position(30_000), 10);
    e.play(30_000).unwrap();
    assert_eq!(e.get_position(30_000), 10);
    assert_eq!(e.get_position(40_000), 50);
}

#[test]
fn test_volume_does_not_touch_clock() {
    let mut e = loaded_engine();
    e.play(0).unwrap();
    e.set_volume(30);
    assert_eq!(e.get_position(10_000), 10);
    assert_eq!(e.get_volume(), 30);
}
