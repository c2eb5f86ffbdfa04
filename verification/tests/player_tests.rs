use audiovibe_core::engine::PlaybackState;
use audiovibe_core::player::AudioPlayer;
use audiovibe_core::sink::SimSink;

fn player() -> AudioPlayer<SimSink> {
    AudioPlayer::new(SimSink::new())
}

#[test]
fn test_audio_player_creation() {
    let p = player();
    let status = p.get_enhanced_status(0);
    assert!(matches!(status.state, PlaybackState::Stopped));
}

#[test]
fn test_audio_player_volume_control() {
    let mut p = player();

    p.set_volume(70);
    assert_eq!(p.get_volume(), 70);
}

#[test]
fn test_audio_player_speed_control() {
    let mut p = player();

    p.set_speed(125, 0);
    assert_eq!(p.get_speed(), 125);
}

#[test]
fn test_position_tracking_no_file() {
    let p = player();
    assert_eq!(p.get_position(12_345), 0);
}

#[test]
fn test_enhanced_status() {
    let p = player();
    let status = p.get_enhanced_status(0);

    assert!(matches!(status.state, PlaybackState::Stopped));
    assert_eq!(status.position, 0);
}

#[test]
fn test_player_position_is_listening_time() {
    // the player's clock counts active seconds, unscaled and unmoved by seeks
    let mut p = player();
    p.load_file("/books/a.mp3").unwrap();
    p.play(0).unwrap();
    p.set_speed(200, 5_000);
    assert_eq!(p.get_position(10_000), 10);
    p.seek(500, 10_000).unwrap();
    assert_eq!(p.get_position(10_000), 10);
    p.pause(20_000);
    assert_eq!(p.get_position(60_000), 20);
    p.play(60_000).unwrap();
    assert_eq!(p.get_position(61_000), 21);
    p.stop();
    assert_eq!(p.get_position(61_000), 0);
}
