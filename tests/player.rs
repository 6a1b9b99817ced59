use tunein_cli::player::PlayerEvent;

#[test]
fn end_of_track_reports_last_track() {
    assert_eq!(PlayerEvent::EndOfTrack { is_last_track: true }.get_is_last_track(), Some(true));
    assert_eq!(PlayerEvent::Playing.get_is_last_track(), None);
}

#[test]
fn current_track_reports_position() {
    let ev = PlayerEvent::CurrentTrack { position: 3, position_ms: 1500, is_playing: true };
    assert_eq!(ev.get_current_track(), Some((3, 1500, true)));
    assert_eq!(PlayerEvent::Stopped.get_current_track(), None);
}
