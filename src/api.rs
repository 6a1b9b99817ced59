use vstd::prelude::*;

use crate::types;
use crate::types::{opt_string_or_empty, string_or_empty};

verus! {

/// A station as the remote control API describes it.
#[derive(Debug, Clone)]
pub struct Station {
    pub id: String,
    pub name: String,
    pub playing: String,
}

/// How a station's stream is reached, as the remote control API describes it.
#[derive(Debug, Clone)]
pub struct StationLinkDetails {
    pub bitrate: u32,
    pub element: String,
    pub is_ad_clipped_content_enabled: String,
    pub is_direct: bool,
    pub is_hls_advanced: String,
    pub live_seek_stream: String,
    pub media_type: String,
    pub player_height: u32,
    pub player_width: u32,
    pub playlist_type: String,
    pub position: u32,
    pub reliability: u32,
    pub url: String,
}

/// A browsing category and the stations it lists.
#[derive(Debug, Clone)]
pub struct Category {
    pub id: String,
    pub name: String,
    pub stations: Vec<Station>,
}

impl From<String> for Category {
    /// A category of this name, with no id and no stations.
    fn from(name: String) -> (r: Category)
        ensures
            r.name == name,
            r.id@ == Seq::<char>::empty(),
            r.stations@ == Seq::<Station>::empty(),
    {
        Category { id: String::new(), name, stations: Vec::new() }
    }
}

// The conversions below fill some fields with fresh empty strings, which no
// single spec value can name: what they return is stated field by field in
// the `ensures` of each `from`.
impl vstd::std_specs::convert::FromSpecImpl<String> for Category {
    open spec fn obeys_from_spec() -> bool {
        false
    }

    open spec fn from_spec(v: String) -> Category {
        arbitrary()
    }
}

impl From<types::Station> for Category {
    /// A category named after the station, with its id and no stations.
    fn from(st: types::Station) -> (r: Category)
        ensures
            r.id == st.id,
            r.name == st.name,
            r.stations@ == Seq::<Station>::empty(),
    {
        Category { id: st.id, name: st.name, stations: Vec::new() }
    }
}

impl vstd::std_specs::convert::FromSpecImpl<types::Station> for Category {
    open spec fn obeys_from_spec() -> bool {
        false
    }

    open spec fn from_spec(v: types::Station) -> Category {
        arbitrary()
    }
}

impl From<types::Station> for StationLinkDetails {
    /// The stream link of a station: its bitrate, URL and codec; every
    /// other field empty, zero or false.
    fn from(s: types::Station) -> (r: StationLinkDetails)
        ensures
            r.bitrate == s.bitrate,
            r.url == s.stream_url,
            r.media_type == s.codec,
            r.element@ == Seq::<char>::empty(),
            r.is_ad_clipped_content_enabled@ == Seq::<char>::empty(),
            !r.is_direct,
            r.is_hls_advanced@ == Seq::<char>::empty(),
            r.live_seek_stream@ == Seq::<char>::empty(),
            r.player_height == 0,
            r.player_width == 0,
            r.playlist_type@ == Seq::<char>::empty(),
            r.position == 0,
            r.reliability == 0,
    {
        StationLinkDetails {
            bitrate: s.bitrate,
            element: String::new(),
            is_ad_clipped_content_enabled: String::new(),
            is_direct: false,
            is_hls_advanced: String::new(),
            live_seek_stream: String::new(),
            media_type: s.codec,
            player_height: 0,
            player_width: 0,
            playlist_type: String::new(),
            position: 0,
            reliability: 0,
            url: s.stream_url,
        }
    }
}

impl vstd::std_specs::convert::FromSpecImpl<types::Station> for StationLinkDetails {
    open spec fn obeys_from_spec() -> bool {
        false
    }

    open spec fn from_spec(v: types::Station) -> StationLinkDetails {
        arbitrary()
    }
}

impl From<types::Station> for Station {
    /// The station's id and name, and what it plays now (empty when unknown).
    fn from(s: types::Station) -> (r: Station)
        ensures
            r.id == s.id,
            r.name == s.name,
            r.playing@ == opt_string_or_empty(s.playing),
    {
        let playing = string_or_empty(&s.playing);
        Station { id: s.id, name: s.name, playing }
    }
}

impl vstd::std_specs::convert::FromSpecImpl<types::Station> for Station {
    open spec fn obeys_from_spec() -> bool {
        false
    }

    open spec fn from_spec(v: types::Station) -> Station {
        arbitrary()
    }
}

} // verus!
