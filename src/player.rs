use vstd::prelude::*;

verus! {

/// How a track list repeats.
#[derive(Debug, Clone, Copy, PartialEq, Eq, Structural)]
pub enum RepeatState {
    Off,
    One,
    All,
}

/// State of an audio sink.
#[derive(Debug, Clone, Copy, PartialEq, Eq, Structural)]
pub enum SinkStatus {
    Running,
    Closed,
    TemporarilyClosed,
}

/// Events of a track player.
#[derive(Debug, Clone)]
pub enum PlayerEvent {
    Stopped,
    Started,
    Loading,
    Preloading,
    Playing,
    Paused,
    TimeToPreloadNextTrack,
    EndOfTrack { is_last_track: bool },
    VolumeSet { volume: u16 },
    Error { track_id: String, error: String },
    CurrentTrack { position: usize, position_ms: u32, is_playing: bool },
    TrackTimePosition { position_ms: u32 },
}

impl PlayerEvent {
    /// Whether the track that ended was the last one, for an end of track.
    pub fn get_is_last_track(&self) -> (r: Option<bool>)
        ensures
            r == (match *self {
                PlayerEvent::EndOfTrack { is_last_track } => Some(is_last_track),
                _ => None,
            }),
    {
        match self {
            PlayerEvent::EndOfTrack { is_last_track } => Some(*is_last_track),
            _ => None,
        }
    }

    /// The position, time and play state, for a current-track event.
    pub fn get_current_track(&self) -> (r: Option<(usize, u32, bool)>)
        ensures
            r == (match *self {
                PlayerEvent::CurrentTrack { position, position_ms, is_playing } => Some(
                    (position, position_ms, is_playing),
                ),
                _ => None,
            }),
    {
        match self {
            PlayerEvent::CurrentTrack { position, position_ms, is_playing } => Some(
                (*position, *position_ms, *is_playing),
            ),
            _ => None,
        }
    }
}

} // verus!
