use vstd::prelude::*;

use crate::volume::{Volume, VolumeView};

verus! {

/// Command for a sink.
#[derive(Debug, Clone, Copy, PartialEq, Eq, Structural)]
pub enum SinkCommand {
    /// Play.
    Play,
    /// Pause.
    Pause,
    /// Set the volume ratio, in hundredths.
    SetVolume(u32),
}

/// What the operating system's media controls are told.
#[derive(Debug, Clone, Copy, PartialEq, Eq, Structural)]
pub enum Command {
    Play,
    Pause,
    /// The volume ratio, in hundredths.
    SetVolume(u32),
}

/// A transport request, from a media key or from the operating system.
#[derive(Debug, Clone, Copy, PartialEq, Eq, Structural)]
pub enum MediaRequest {
    Play,
    Pause,
    Toggle,
    /// Stop, or quit: both end the session.
    Stop,
    RaiseVolume,
    LowerVolume,
    Mute,
    /// Set the volume ratio, in hundredths.
    SetVolumeRatio(i64),
    /// A request this player does not act on (seek, next track, ...).
    Ignored,
}

/// What to send after a request, and whether the session ends.
#[derive(Debug, Clone, Copy, PartialEq, Eq, Structural)]
pub struct ControlResponse {
    pub sink: Option<SinkCommand>,
    pub os: Option<Command>,
    pub quit: bool,
}

/// The play/pause state and volume that media requests act on.
pub struct PlayerControls {
    paused: bool,
    volume: Volume,
}

/// What [`PlayerControls`] hold, for contracts.
pub struct ControlsView {
    pub paused: bool,
    pub volume: VolumeView,
}

impl View for PlayerControls {
    type V = ControlsView;

    closed spec fn view(&self) -> ControlsView {
        ControlsView { paused: self.paused, volume: self.volume@ }
    }
}

/// The response to a request that sets the playing state to `paused`.
pub open spec fn spec_play_state(paused: bool) -> ControlResponse {
    if paused {
        ControlResponse { sink: Some(SinkCommand::Pause), os: Some(Command::Pause), quit: false }
    } else {
        ControlResponse { sink: Some(SinkCommand::Play), os: Some(Command::Play), quit: false }
    }
}

/// The response to a request that leaves the volume at `v`.
pub open spec fn spec_volume_set(v: VolumeView) -> ControlResponse {
    ControlResponse {
        sink: Some(SinkCommand::SetVolume(v.gain())),
        os: Some(Command::SetVolume(v.gain())),
        quit: false,
    }
}

/// The controls' next state and response, for one request.
pub open spec fn spec_handle(pre: ControlsView, req: MediaRequest) -> (ControlsView, ControlResponse) {
    match req {
        MediaRequest::Play => (ControlsView { paused: false, ..pre }, spec_play_state(false)),
        MediaRequest::Pause => (ControlsView { paused: true, ..pre }, spec_play_state(true)),
        MediaRequest::Toggle => (
            ControlsView { paused: !pre.paused, ..pre },
            spec_play_state(!pre.paused),
        ),
        MediaRequest::Stop => (pre, ControlResponse { sink: None, os: None, quit: true }),
        MediaRequest::RaiseVolume => (
            ControlsView { volume: pre.volume.changed(1i64), ..pre },
            spec_volume_set(pre.volume.changed(1i64)),
        ),
        MediaRequest::LowerVolume => (
            ControlsView { volume: pre.volume.changed(-1i64), ..pre },
            spec_volume_set(pre.volume.changed(-1i64)),
        ),
        MediaRequest::Mute => (
            ControlsView { volume: pre.volume.toggled(), ..pre },
            spec_volume_set(pre.volume.toggled()),
        ),
        MediaRequest::SetVolumeRatio(r) => (
            ControlsView { volume: pre.volume.with_ratio(r), ..pre },
            spec_volume_set(pre.volume.with_ratio(r)),
        ),
        MediaRequest::Ignored => (pre, ControlResponse { sink: None, os: None, quit: false }),
    }
}

impl PlayerControls {
    /// Controls of a playing stream at this volume.
    pub fn new(volume: Volume) -> (r: PlayerControls)
        ensures
            r@ == (ControlsView { paused: false, volume: volume@ }),
    {
        PlayerControls { paused: false, volume }
    }

    pub fn is_paused(&self) -> (r: bool)
        ensures
            r == self@.paused,
    {
        self.paused
    }

    pub fn volume(&self) -> (r: Volume)
        ensures
            r@ == self@.volume,
    {
        self.volume
    }

    fn respond_play_state(&self) -> (r: ControlResponse)
        ensures
            r == spec_play_state(self@.paused),
    {
        if self.paused {
            ControlResponse { sink: Some(SinkCommand::Pause), os: Some(Command::Pause), quit: false }
        } else {
            ControlResponse { sink: Some(SinkCommand::Play), os: Some(Command::Play), quit: false }
        }
    }

    fn respond_volume(&self) -> (r: ControlResponse)
        ensures
            r == spec_volume_set(self@.volume),
    {
        let ratio = self.volume.volume_ratio();
        ControlResponse {
            sink: Some(SinkCommand::SetVolume(ratio)),
            os: Some(Command::SetVolume(ratio)),
            quit: false,
        }
    }

    /// Play music.
    pub fn play(&mut self) -> (r: ControlResponse)
        ensures
            (final(self)@, r) == spec_handle(old(self)@, MediaRequest::Play),
    {
        self.paused = false;
        self.respond_play_state()
    }

    /// Pause music.
    pub fn pause(&mut self) -> (r: ControlResponse)
        ensures
            (final(self)@, r) == spec_handle(old(self)@, MediaRequest::Pause),
    {
        self.paused = true;
        self.respond_play_state()
    }

    /// Toggle between play and pause.
    pub fn toggle_play_pause(&mut self) -> (r: ControlResponse)
        ensures
            (final(self)@, r) == spec_handle(old(self)@, MediaRequest::Toggle),
    {
        self.paused = !self.paused;
        self.respond_play_state()
    }

    /// Lower the volume by one percent.
    pub fn lower_volume(&mut self) -> (r: ControlResponse)
        ensures
            (final(self)@, r) == spec_handle(old(self)@, MediaRequest::LowerVolume),
    {
        self.volume.change_volume(-1);
        self.respond_volume()
    }

    /// Raise the volume by one percent.
    pub fn raise_volume(&mut self) -> (r: ControlResponse)
        ensures
            (final(self)@, r) == spec_handle(old(self)@, MediaRequest::RaiseVolume),
    {
        self.volume.change_volume(1);
        self.respond_volume()
    }

    /// Mute or unmute the volume.
    pub fn mute_volume(&mut self) -> (r: ControlResponse)
        ensures
            (final(self)@, r) == spec_handle(old(self)@, MediaRequest::Mute),
    {
        self.volume.toggle_mute();
        self.respond_volume()
    }

    /// Set the volume to the given ratio, in hundredths.
    pub fn set_volume_ratio(&mut self, ratio: i64) -> (r: ControlResponse)
        ensures
            (final(self)@, r) == spec_handle(old(self)@, MediaRequest::SetVolumeRatio(ratio)),
    {
        self.volume.set_volume_ratio(ratio);
        self.respond_volume()
    }

    /// Act on one request.
    pub fn handle(&mut self, req: MediaRequest) -> (r: ControlResponse)
        ensures
            (final(self)@, r) == spec_handle(old(self)@, req),
    {
        match req {
            MediaRequest::Play => self.play(),
            MediaRequest::Pause => self.pause(),
            MediaRequest::Toggle => self.toggle_play_pause(),
            MediaRequest::Stop => ControlResponse { sink: None, os: None, quit: true },
            MediaRequest::RaiseVolume => self.raise_volume(),
            MediaRequest::LowerVolume => self.lower_volume(),
            MediaRequest::Mute => self.mute_volume(),
            MediaRequest::SetVolumeRatio(r) => self.set_volume_ratio(r),
            MediaRequest::Ignored => ControlResponse { sink: None, os: None, quit: false },
        }
    }
}

} // verus!
