use tunein_cli::acquire::{display_name, Location, RedirectFollower, RedirectStep};

#[test]
fn display_name_uses_icy_name_verbatim() {
    let name = display_name(&Some("Radio One".to_string()), &"Catalog".to_string());
    assert_eq!(name, "Radio One");
}

#[test]
fn display_name_falls_back_when_absent() {
    let name = display_name(&None, &"Catalog".to_string());
    assert_eq!(name, "Catalog");
}

#[test]
fn display_name_falls_back_when_unknown() {
    let name = display_name(&Some("Unknown".to_string()), &"Catalog".to_string());
    assert_eq!(name, "Catalog");
}

#[test]
fn display_name_keeps_other_spellings_of_unknown() {
    let name = display_name(&Some("unknown".to_string()), &"Catalog".to_string());
    assert_eq!(name, "unknown");
}

#[test]
fn redirect_chain_stops_after_three_follows() {
    let mut follower = RedirectFollower::new();
    assert_eq!(follower.requests_sent(), 1);
    let mut followed = Vec::new();
    for hop in 0..6 {
        match follower.next_step(Location::Url(format!("http://relay/{}", hop))) {
            RedirectStep::Follow(url) => followed.push(url),
            RedirectStep::Done => break,
            RedirectStep::InvalidLocation => panic!("unexpected invalid location"),
        }
    }
    assert_eq!(followed, vec!["http://relay/0", "http://relay/1", "http://relay/2"]);
    assert_eq!(follower.requests_sent(), 4);
    assert!(matches!(follower.next_step(Location::Url("http://relay/9".to_string())), RedirectStep::Done));
}

#[test]
fn redirect_chain_ends_at_first_plain_response() {
    let mut follower = RedirectFollower::new();
    assert!(matches!(follower.next_step(Location::Url("http://a".to_string())), RedirectStep::Follow(_)));
    assert!(matches!(follower.next_step(Location::Absent), RedirectStep::Done));
    assert_eq!(follower.requests_sent(), 2);
}

#[test]
fn unreadable_location_is_an_error() {
    let mut follower = RedirectFollower::new();
    assert!(matches!(follower.next_step(Location::Invalid), RedirectStep::InvalidLocation));
    assert_eq!(follower.requests_sent(), 1);
}

