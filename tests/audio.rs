use tunein_cli::acquire::StreamHeaders;
use tunein_cli::audio::{
    playback_state, ActorAction, ActorInput, AudioCommand, PlaybackActor, PlaybackEvent,
    RELEASE_GRACE_MILLIS,
};
use tunein_cli::types::Station;

fn station(id: &str, name: &str, url: &str) -> Station {
    Station {
        id: id.to_string(),
        name: name.to_string(),
        codec: "MP3".to_string(),
        bitrate: 128,
        stream_url: url.to_string(),
        playing: None,
    }
}

fn headers(name: Option<&str>, br: Option<&str>) -> StreamHeaders {
    StreamHeaders {
        icy_name: name.map(|s| s.to_string()),
        icy_genre: None,
        icy_description: None,
        icy_br: br.map(|s| s.to_string()),
    }
}

fn events(actions: &[ActorAction]) -> Vec<PlaybackEvent> {
    actions
        .iter()
        .filter_map(|a| match a {
            ActorAction::Emit(e) => Some(e.clone()),
            _ => None,
        })
        .collect()
}

fn play(actor: &mut PlaybackActor, st: Station, volume: i64) -> Vec<ActorAction> {
    actor.step(ActorInput::Command(AudioCommand::Play { station: st, volume_percent: volume }))
}

#[test]
fn end_to_end_play_then_stop() {
    let mut actor = PlaybackActor::new();
    let acts = play(&mut actor, station("s1", "Catalog One", "http://example/stream"), 80);
    assert_eq!(acts.len(), 1);
    match &acts[0] {
        ActorAction::OpenStream { url, volume_ratio } => {
            assert_eq!(url, "http://example/stream");
            assert_eq!(*volume_ratio, 80);
        }
        other => panic!("unexpected action {:?}", other),
    }
    assert!(actor.is_opening());

    let acts = actor.step(ActorInput::StreamOpened(headers(Some("Radio One"), Some("128"))));
    let evs = events(&acts);
    assert_eq!(evs.len(), 1);
    match &evs[0] {
        PlaybackEvent::Started(state) => {
            assert_eq!(state.stream_name, "Radio One");
            assert_eq!(state.bitrate, "128");
            assert_eq!(state.station.id, "s1");
            assert_eq!(state.genre, "");
        }
        other => panic!("unexpected event {:?}", other),
    }
    assert!(actor.is_active());
    assert_eq!(actor.current_volume(), 80);

    let acts = actor.step(ActorInput::Command(AudioCommand::SetVolume(40)));
    assert!(events(&acts).is_empty());

    let acts = actor.step(ActorInput::Command(AudioCommand::Stop));
    assert!(matches!(acts[0], ActorAction::StopSink));
    let evs = events(&acts);
    assert_eq!(evs.len(), 1);
    assert!(matches!(evs[0], PlaybackEvent::Stopped));
    assert!(!actor.is_active());
}

#[test]
fn stop_when_idle_emits_one_stopped() {
    let mut actor = PlaybackActor::new();
    let acts = actor.step(ActorInput::Command(AudioCommand::Stop));
    assert_eq!(acts.len(), 1);
    assert!(matches!(acts[0], ActorAction::Emit(PlaybackEvent::Stopped)));
    assert!(!actor.is_active());
    assert!(!actor.is_opening());
}

#[test]
fn second_play_follows_first_outcome() {
    let mut actor = PlaybackActor::new();
    let mut all = Vec::new();
    all.extend(play(&mut actor, station("a", "A", "http://a/stream"), 50));
    all.extend(actor.step(ActorInput::StreamFailed("failed to open stream http://a/stream".to_string())));
    let acts_b = play(&mut actor, station("b", "B", "http://b/stream"), 60);
    assert!(matches!(acts_b[0], ActorAction::OpenStream { .. }));
    all.extend(acts_b);
    all.extend(actor.step(ActorInput::StreamOpened(headers(None, None))));
    let evs = events(&all);
    assert_eq!(evs.len(), 2);
    match (&evs[0], &evs[1]) {
        (PlaybackEvent::Error(msg), PlaybackEvent::Started(state)) => {
            assert_eq!(msg, "failed to open stream http://a/stream");
            assert_eq!(state.station.id, "b");
            assert_eq!(state.stream_name, "B");
        }
        other => panic!("unexpected events {:?}", other),
    }
    assert!(actor.is_active());
}

#[test]
fn play_while_active_releases_the_sink_first() {
    let mut actor = PlaybackActor::new();
    play(&mut actor, station("a", "A", "http://a/stream"), 50);
    actor.step(ActorInput::StreamOpened(headers(Some("Unknown"), None)));
    let acts = play(&mut actor, station("b", "B", "http://b/stream"), -5);
    assert_eq!(acts.len(), 3);
    assert!(matches!(acts[0], ActorAction::StopSink));
    assert!(matches!(acts[1], ActorAction::Pause(ms) if ms == RELEASE_GRACE_MILLIS));
    match &acts[2] {
        ActorAction::OpenStream { url, volume_ratio } => {
            assert_eq!(url, "http://b/stream");
            assert_eq!(*volume_ratio, 0);
        }
        other => panic!("unexpected action {:?}", other),
    }
}

#[test]
fn failed_play_leaves_actor_idle_with_old_volume() {
    let mut actor = PlaybackActor::new();
    play(&mut actor, station("a", "A", "http://a/stream"), 30);
    let acts = actor.step(ActorInput::StreamFailed("stream is not in MP3 format".to_string()));
    assert!(matches!(&acts[0], ActorAction::Emit(PlaybackEvent::Error(m)) if m == "stream is not in MP3 format"));
    assert!(!actor.is_active());
    assert!(!actor.is_opening());
    assert_eq!(actor.current_volume(), 100);
}

#[test]
fn set_volume_applies_to_active_sink_only() {
    let mut actor = PlaybackActor::new();
    let acts = actor.step(ActorInput::Command(AudioCommand::SetVolume(-3)));
    assert!(acts.is_empty());
    assert_eq!(actor.current_volume(), 0);
    play(&mut actor, station("a", "A", "http://a/stream"), 70);
    actor.step(ActorInput::StreamOpened(headers(None, None)));
    let acts = actor.step(ActorInput::Command(AudioCommand::SetVolume(55)));
    assert_eq!(acts.len(), 1);
    assert!(matches!(acts[0], ActorAction::SetSinkVolume(55)));
}

#[test]
fn commands_wait_while_a_stream_opens() {
    let mut actor = PlaybackActor::new();
    play(&mut actor, station("a", "A", "http://a/stream"), 70);
    assert!(actor.step(ActorInput::Command(AudioCommand::Stop)).is_empty());
    assert!(actor.is_opening());
    assert!(actor.step(ActorInput::StreamOpened(headers(None, None))).len() == 1);
}

#[test]
fn outcome_without_opening_is_ignored() {
    let mut actor = PlaybackActor::new();
    assert!(actor.step(ActorInput::StreamFailed("late".to_string())).is_empty());
    assert!(actor.step(ActorInput::StreamOpened(headers(None, None))).is_empty());
    assert!(!actor.is_active());
}

#[test]
fn playback_state_fills_defaults_and_now_playing() {
    let mut st = station("s", "Catalog", "http://x");
    st.playing = Some("Song".to_string());
    let h = StreamHeaders {
        icy_name: Some("Unknown".to_string()),
        icy_genre: Some("Rock".to_string()),
        icy_description: Some("All rock".to_string()),
        icy_br: None,
    };
    let state = playback_state(st, &h);
    assert_eq!(state.stream_name, "Catalog");
    assert_eq!(state.now_playing, "Song");
    assert_eq!(state.genre, "Rock");
    assert_eq!(state.description, "All rock");
    assert_eq!(state.bitrate, "");
}
