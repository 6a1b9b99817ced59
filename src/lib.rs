//! Playback engine of a terminal radio client: volume, the incremental MP3
//! frame cursor, the decisions of stream acquisition, the playback actor and
//! the favourites list.

pub mod acquire;
pub mod api;
pub mod audio;
pub mod cfg;
pub mod controls;
pub mod decoder;
pub mod display;
pub mod extract;
pub mod favorites;
pub mod player;
pub mod provider;
pub mod types;
pub mod volume;
