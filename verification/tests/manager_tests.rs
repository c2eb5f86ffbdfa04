use audiovibe_core::engine::{EngineError, PlaybackState};
use audiovibe_core::manager::{AudioManager, RepeatMode, Track};
use audiovibe_core::sink::SimSink;

fn track(id: &str, path: &str) -> Track {
    Track { id: id.to_string(), file_path: path.to_string(), title: None, duration: None }
}

fn manager() -> AudioManager<SimSink> {
    AudioManager::new(SimSink::new())
}

#[test]
fn test_queue_fifo_order() {
    // enqueue A then B: play_next loads A, then B, then reports exhaustion
    let mut m = manager();
    m.add_to_queue(track("a", "/books/a.mp3"));
    m.add_to_queue(track("b", "/books/b.mp3"));

    assert_eq!(m.play_next(), Ok(true));
    assert_eq!(m.get_current_track().unwrap().id, "a");
    assert_eq!(m.get_queue().len(), 1);

    assert_eq!(m.play_next(), Ok(true));
    assert_eq!(m.get_current_track().unwrap().id, "b");
    assert_eq!(m.get_queue().len(), 0);

    assert_eq!(m.play_next(), Ok(false));
    assert_eq!(m.get_current_track().unwrap().id, "b");
}

#[test]
fn test_play_track_immediately_clears_queue() {
    let mut m = manager();
    m.add_to_queue(track("a", "/books/a.mp3"));
    m.add_to_queue(track("b", "/books/b.mp3"));
    assert_eq!(m.play_track_immediately(track("x", "/books/x.mp3")), Ok(()));
    assert!(m.get_queue().is_empty());
    assert_eq!(m.get_current_track().unwrap().id, "x");
    assert_eq!(m.get_status(0).current_file.as_deref(), Some("/books/x.mp3"));
}

#[test]
fn test_play_track_immediately_failure_keeps_queue() {
    let mut sink = SimSink::new();
    sink.set_decode_ok(false);
    let mut m = AudioManager::new(sink);
    m.add_to_queue(track("a", "/books/a.mp3"));
    assert_eq!(
        m.play_track_immediately(track("x", "/books/x.mp3")),
        Err(EngineError::DecodeFailed)
    );
    assert_eq!(m.get_queue().len(), 1);
    assert!(m.get_current_track().is_none());
}

#[test]
fn test_add_tracks_to_queue() {
    let mut m = manager();
    m.add_tracks_to_queue(vec![track("a", "/a"), track("b", "/b"), track("c", "/c")]);
    let q = m.get_queue();
    assert_eq!(q.len(), 3);
    assert_eq!(q[0].id, "a");
    assert_eq!(q[1].id, "b");
    assert_eq!(q[2].id, "c");
}

#[test]
fn test_clear_queue() {
    let mut m = manager();
    m.add_to_queue(track("a", "/a"));
    m.clear_queue();
    assert!(m.get_queue().is_empty());
}

#[test]
fn test_manager_transport_delegation() {
    let mut m = manager();
    m.play_track_immediately(track("a", "/books/a.mp3")).unwrap();
    m.play(0).unwrap();
    assert!(matches!(m.get_status(0).state, PlaybackState::Playing));
    m.pause(10_000);
    assert_eq!(m.get_status(20_000).position, 10);
    m.stop();
    assert_eq!(m.get_status(20_000).position, 0);
    assert!(matches!(m.get_status(20_000).state, PlaybackState::Stopped));
}

#[test]
fn test_manager_play_no_reload_on_failure() {
    let mut m = manager();
    // nothing loaded: the failure propagates unmodified
    assert_eq!(m.play(0), Err(EngineError::NoFileLoaded));
}

#[test]
fn test_manager_seek_and_volume() {
    let mut m = manager();
    m.play_track_immediately(track("a", "/books/a.mp3")).unwrap();
    m.seek(90, 1_000).unwrap();
    assert_eq!(m.get_status(1_000).position, 90);
    m.set_volume(250);
    assert_eq!(m.get_status(1_000).volume, 100);
    m.set_speed(-3, 1_000);
    assert_eq!(m.get_status(1_000).speed, 25);
}

#[test]
fn test_play_previous_restarts() {
    let mut m = manager();
    m.play_track_immediately(track("a", "/books/a.mp3")).unwrap();
    m.play(0).unwrap();
    assert_eq!(m.get_status(60_000).position, 60);
    assert_eq!(m.play_previous(60_000), Ok(true));
    assert_eq!(m.get_status(60_000).position, 0);
}

#[test]
fn test_repeat_and_shuffle_flags() {
    let mut m = manager();
    m.set_repeat_mode(RepeatMode::Queue);
    m.set_shuffle(true);
    // the flags do not disturb the queue
    m.add_to_queue(track("a", "/a"));
    assert_eq!(m.get_queue().len(), 1);
}
