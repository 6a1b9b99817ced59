use tunein_cli::api::{Category, Station as ApiStation, StationLinkDetails};
use tunein_cli::types::Station;

fn station(playing: Option<&str>) -> Station {
    Station {
        id: "s288303".to_string(),
        name: "Alternative Radio".to_string(),
        codec: "MP3".to_string(),
        bitrate: 128,
        stream_url: "http://example/stream".to_string(),
        playing: playing.map(|s| s.to_string()),
    }
}

#[test]
fn category_from_name_has_no_id_or_stations() {
    let c = Category::from("music".to_string());
    assert_eq!(c.name, "music");
    assert_eq!(c.id, "");
    assert!(c.stations.is_empty());
}

#[test]
fn category_from_station_keeps_id_and_name() {
    let c = Category::from(station(None));
    assert_eq!(c.id, "s288303");
    assert_eq!(c.name, "Alternative Radio");
    assert!(c.stations.is_empty());
}

#[test]
fn link_details_from_station() {
    let d = StationLinkDetails::from(station(None));
    assert_eq!(d.bitrate, 128);
    assert_eq!(d.url, "http://example/stream");
    assert_eq!(d.media_type, "MP3");
    assert_eq!(d.playlist_type, "");
    assert!(!d.is_direct);
    assert_eq!(d.reliability, 0);
}

#[test]
fn api_station_from_station() {
    let s = ApiStation::from(station(Some("Song - Artist")));
    assert_eq!(s.id, "s288303");
    assert_eq!(s.playing, "Song - Artist");
    let s = ApiStation::from(station(None));
    assert_eq!(s.playing, "");
}
