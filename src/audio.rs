use vstd::prelude::*;

use crate::acquire::{display_name, spec_display_name, StreamHeaders};
use crate::types::{opt_string_or_empty, string_or_empty, Station};
use crate::volume::{clamp_percent, clamp_to_percent};

verus! {

/// How long a released sink is given to let go of the output device before
/// the next one is built, in milliseconds.
pub const RELEASE_GRACE_MILLIS: u64 = 50;

/// Snapshot of the current playback metadata.
#[derive(Debug, Clone)]
pub struct PlaybackState {
    pub station: Station,
    pub stream_name: String,
    pub now_playing: String,
    pub genre: String,
    pub description: String,
    pub bitrate: String,
}

/// Playback events emitted by the audio worker.
#[derive(Debug, Clone)]
pub enum PlaybackEvent {
    Started(PlaybackState),
    Error(String),
    Stopped,
}

/// Commands sent to the audio worker.
#[derive(Debug)]
pub enum AudioCommand {
    Play { station: Station, volume_percent: i64 },
    SetVolume(i64),
    Stop,
}

/// What the worker hands the actor: a command, or the outcome of opening the
/// stream that the actor asked for.
#[derive(Debug)]
pub enum ActorInput {
    Command(AudioCommand),
    /// The stream is open, its sink plays it, and these are the headers of
    /// its first response.
    StreamOpened(StreamHeaders),
    /// Opening the stream, building its sink or its decoder failed.
    StreamFailed(String),
}

/// What the actor asks the worker to do, in order.
#[derive(Debug)]
pub enum ActorAction {
    /// Stop and drop the current sink.
    StopSink,
    /// Wait this many milliseconds.
    Pause(u64),
    /// Open the stream at `url`, follow its redirects, build a sink at this
    /// volume ratio (hundredths) and play the decoded stream on it; then
    /// report the outcome.
    OpenStream { url: String, volume_ratio: u32 },
    /// Set the current sink's volume ratio (hundredths).
    SetSinkVolume(u32),
    /// Send this event to the subscribers.
    Emit(PlaybackEvent),
}

/// Where the actor stands.
#[derive(Debug)]
pub enum ActorPhase {
    /// No sink.
    Idle,
    /// A stream is being opened for this station at this volume percent.
    Opening { station: Station, volume_percent: u32 },
    /// A sink plays this station.
    Active { station: Station },
}

/// The playback actor's decisions: it owns, in its worker, the output
/// device and at most one sink, and turns each input into actions.
///
/// A stream that ends by itself (the network closes it, or a frame fails to
/// decode after playback started) raises no event: the actor stays active,
/// with its drained sink, until the next `Play` or `Stop` replaces or
/// releases it.
#[derive(Debug)]
pub struct PlaybackActor {
    phase: ActorPhase,
    current_volume: u32,
}

/// What a [`PlaybackActor`] holds, for contracts.
pub struct ActorView {
    pub phase: ActorPhase,
    pub volume: u32,
}

impl View for PlaybackActor {
    type V = ActorView;

    closed spec fn view(&self) -> ActorView {
        ActorView { phase: self.phase, volume: self.current_volume }
    }
}

/// What a [`PlaybackState`] holds, with its texts as character sequences.
pub struct PlaybackStateView {
    pub station: Station,
    pub stream_name: Seq<char>,
    pub now_playing: Seq<char>,
    pub genre: Seq<char>,
    pub description: Seq<char>,
    pub bitrate: Seq<char>,
}

impl View for PlaybackState {
    type V = PlaybackStateView;

    open spec fn view(&self) -> PlaybackStateView {
        PlaybackStateView {
            station: self.station,
            stream_name: self.stream_name@,
            now_playing: self.now_playing@,
            genre: self.genre@,
            description: self.description@,
            bitrate: self.bitrate@,
        }
    }
}

/// What a [`PlaybackEvent`] holds, with its texts as character sequences.
pub enum EventView {
    Started(PlaybackStateView),
    Error(Seq<char>),
    Stopped,
}

impl View for PlaybackEvent {
    type V = EventView;

    open spec fn view(&self) -> EventView {
        match self {
            PlaybackEvent::Started(s) => EventView::Started(s@),
            PlaybackEvent::Error(m) => EventView::Error(m@),
            PlaybackEvent::Stopped => EventView::Stopped,
        }
    }
}

/// What an [`ActorAction`] holds, with its texts as character sequences.
pub enum ActionView {
    StopSink,
    Pause(u64),
    OpenStream { url: Seq<char>, volume_ratio: u32 },
    SetSinkVolume(u32),
    Emit(EventView),
}

impl View for ActorAction {
    type V = ActionView;

    open spec fn view(&self) -> ActionView {
        match self {
            ActorAction::StopSink => ActionView::StopSink,
            ActorAction::Pause(ms) => ActionView::Pause(*ms),
            ActorAction::OpenStream { url, volume_ratio } => ActionView::OpenStream {
                url: url@,
                volume_ratio: *volume_ratio,
            },
            ActorAction::SetSinkVolume(r) => ActionView::SetSinkVolume(*r),
            ActorAction::Emit(e) => ActionView::Emit(e@),
        }
    }
}

/// The views of a sequence of actions.
pub open spec fn action_views(acts: Seq<ActorAction>) -> Seq<ActionView> {
    acts.map_values(|a: ActorAction| a@)
}

/// The events among a sequence of actions, in order.
pub open spec fn events_of(acts: Seq<ActionView>) -> Seq<EventView>
    decreases acts.len(),
{
    if acts.len() == 0 {
        Seq::empty()
    } else {
        match acts.last() {
            ActionView::Emit(e) => events_of(acts.drop_last()).push(e),
            _ => events_of(acts.drop_last()),
        }
    }
}

/// The snapshot announced when a stream of `station` opens with `headers`.
pub open spec fn spec_playback_state(station: Station, headers: StreamHeaders) -> PlaybackStateView {
    PlaybackStateView {
        station,
        stream_name: spec_display_name(headers.icy_name, station.name@),
        now_playing: opt_string_or_empty(station.playing),
        genre: opt_string_or_empty(headers.icy_genre),
        description: opt_string_or_empty(headers.icy_description),
        bitrate: opt_string_or_empty(headers.icy_br),
    }
}

/// The snapshot announced when a stream of `station` opens, with the
/// headers of its first response.
pub fn playback_state(station: Station, headers: &StreamHeaders) -> (r: PlaybackState)
    ensures
        r@ == spec_playback_state(station, *headers),
{
    let stream_name = display_name(&headers.icy_name, &station.name);
    let now_playing = string_or_empty(&station.playing);
    let genre = string_or_empty(&headers.icy_genre);
    let description = string_or_empty(&headers.icy_description);
    let bitrate = string_or_empty(&headers.icy_br);
    PlaybackState { station, stream_name, now_playing, genre, description, bitrate }
}

/// The actor's next state and its actions, for one input. An input that the
/// current phase does not take (a command while a stream is opening, an
/// outcome while none is) changes nothing and asks for nothing.
pub open spec fn spec_step(pre: ActorView, input: ActorInput) -> (ActorView, Seq<ActionView>) {
    match input {
        ActorInput::Command(AudioCommand::Play { station, volume_percent }) => {
            let v = clamp_percent(volume_percent as int);
            let open = ActionView::OpenStream { url: station.stream_url@, volume_ratio: v };
            let next = ActorView { phase: ActorPhase::Opening { station, volume_percent: v }, volume: pre.volume };
            match pre.phase {
                ActorPhase::Idle => (next, seq![open]),
                ActorPhase::Active { .. } => (
                    next,
                    seq![ActionView::StopSink, ActionView::Pause(RELEASE_GRACE_MILLIS), open],
                ),
                ActorPhase::Opening { .. } => (pre, Seq::empty()),
            }
        },
        ActorInput::Command(AudioCommand::SetVolume(p)) => {
            let v = clamp_percent(p as int);
            match pre.phase {
                ActorPhase::Idle => (ActorView { phase: pre.phase, volume: v }, Seq::empty()),
                ActorPhase::Active { .. } => (
                    ActorView { phase: pre.phase, volume: v },
                    seq![ActionView::SetSinkVolume(v)],
                ),
                ActorPhase::Opening { .. } => (pre, Seq::empty()),
            }
        },
        ActorInput::Command(AudioCommand::Stop) => match pre.phase {
            ActorPhase::Idle => (pre, seq![ActionView::Emit(EventView::Stopped)]),
            ActorPhase::Active { .. } => (
                ActorView { phase: ActorPhase::Idle, volume: pre.volume },
                seq![ActionView::StopSink, ActionView::Emit(EventView::Stopped)],
            ),
            ActorPhase::Opening { .. } => (pre, Seq::empty()),
        },
        ActorInput::StreamOpened(headers) => match pre.phase {
            ActorPhase::Opening { station, volume_percent } => (
                ActorView { phase: ActorPhase::Active { station }, volume: volume_percent },
                seq![ActionView::Emit(EventView::Started(spec_playback_state(station, headers)))],
            ),
            _ => (pre, Seq::empty()),
        },
        ActorInput::StreamFailed(message) => match pre.phase {
            ActorPhase::Opening { .. } => (
                ActorView { phase: ActorPhase::Idle, volume: pre.volume },
                seq![ActionView::Emit(EventView::Error(message@))],
            ),
            _ => (pre, Seq::empty()),
        },
    }
}

impl PlaybackActor {
    /// An idle actor at full volume.
    pub fn new() -> (r: PlaybackActor)
        ensures
            r@.phase is Idle,
            r@.volume == 100,
    {
        PlaybackActor { phase: ActorPhase::Idle, current_volume: 100 }
    }

    /// The remembered volume percent.
    pub fn current_volume(&self) -> (r: u32)
        ensures
            r == self@.volume,
    {
        self.current_volume
    }

    /// Is a stream being opened, so that only its outcome is taken?
    pub fn is_opening(&self) -> (r: bool)
        ensures
            r == self@.phase is Opening,
    {
        match &self.phase {
            ActorPhase::Opening { .. } => true,
            _ => false,
        }
    }

    /// Does a sink play?
    pub fn is_active(&self) -> (r: bool)
        ensures
            r == self@.phase is Active,
    {
        match &self.phase {
            ActorPhase::Active { .. } => true,
            _ => false,
        }
    }

    /// Take one input: the actor moves to its next phase and returns what
    /// the worker must do, in order.
    pub fn step(&mut self, input: ActorInput) -> (r: Vec<ActorAction>)
        ensures
            (final(self)@, action_views(r@)) == spec_step(old(self)@, input),
            r@.len() == spec_step(old(self)@, input).1.len(),
    {
        let mut phase = ActorPhase::Idle;
        core::mem::swap(&mut self.phase, &mut phase);
        let ghost pre = old(self)@;
        let mut acts: Vec<ActorAction> = Vec::new();
        match input {
            ActorInput::Command(AudioCommand::Play { station, volume_percent }) => {
                let v = clamp_to_percent(volume_percent);
                match phase {
                    ActorPhase::Opening { station: s, volume_percent: p } => {
                        self.phase = ActorPhase::Opening { station: s, volume_percent: p };
                    },
                    ActorPhase::Active { .. } => {
                        acts.push(ActorAction::StopSink);
                        acts.push(ActorAction::Pause(RELEASE_GRACE_MILLIS));
                        acts.push(ActorAction::OpenStream { url: station.stream_url.clone(), volume_ratio: v });
                        self.phase = ActorPhase::Opening { station, volume_percent: v };
                    },
                    ActorPhase::Idle => {
                        acts.push(ActorAction::OpenStream { url: station.stream_url.clone(), volume_ratio: v });
                        self.phase = ActorPhase::Opening { station, volume_percent: v };
                    },
                }
            },
            ActorInput::Command(AudioCommand::SetVolume(p)) => {
                let v = clamp_to_percent(p);
                match phase {
                    ActorPhase::Opening { station: s, volume_percent: q } => {
                        self.phase = ActorPhase::Opening { station: s, volume_percent: q };
                    },
                    ActorPhase::Active { station } => {
                        self.current_volume = v;
                        acts.push(ActorAction::SetSinkVolume(v));
                        self.phase = ActorPhase::Active { station };
                    },
                    ActorPhase::Idle => {
                        self.current_volume = v;
                    },
                }
            },
            ActorInput::Command(AudioCommand::Stop) => {
                match phase {
                    ActorPhase::Opening { station: s, volume_percent: q } => {
                        self.phase = ActorPhase::Opening { station: s, volume_percent: q };
                    },
                    ActorPhase::Active { .. } => {
                        acts.push(ActorAction::StopSink);
                        acts.push(ActorAction::Emit(PlaybackEvent::Stopped));
                    },
                    ActorPhase::Idle => {
                        acts.push(ActorAction::Emit(PlaybackEvent::Stopped));
                    },
                }
            },
            ActorInput::StreamOpened(headers) => {
                match phase {
                    ActorPhase::Opening { station, volume_percent } => {
                        let kept = station.duplicate();
                        let state = playback_state(station, &headers);
                        acts.push(ActorAction::Emit(PlaybackEvent::Started(state)));
                        self.current_volume = volume_percent;
                        self.phase = ActorPhase::Active { station: kept };
                    },
                    other => {
                        self.phase = other;
                    },
                }
            },
            ActorInput::StreamFailed(message) => {
                match phase {
                    ActorPhase::Opening { .. } => {
                        acts.push(ActorAction::Emit(PlaybackEvent::Error(message)));
                    },
                    other => {
                        self.phase = other;
                    },
                }
            },
        }
        proof {
            assert(action_views(acts@) =~= spec_step(pre, input).1);
        }
        acts
    }
}

/// The actor's state and all its actions after the inputs of `inputs`, in
/// order.
pub open spec fn spec_run(pre: ActorView, inputs: Seq<ActorInput>) -> (ActorView, Seq<ActionView>)
    decreases inputs.len(),
{
    if inputs.len() == 0 {
        (pre, Seq::empty())
    } else {
        let (mid, before) = spec_run(pre, inputs.drop_last());
        let (post, last) = spec_step(mid, inputs.last());
        (post, before + last)
    }
}

/// The event that answers a stream's opening for `station`.
pub open spec fn outcome_event(station: Station, outcome: ActorInput) -> EventView {
    match outcome {
        ActorInput::StreamOpened(headers) => EventView::Started(spec_playback_state(station, headers)),
        ActorInput::StreamFailed(message) => EventView::Error(message@),
        _ => EventView::Stopped,
    }
}

proof fn lemma_events_of_concat(a: Seq<ActionView>, b: Seq<ActionView>)
    ensures
        events_of(a + b) == events_of(a) + events_of(b),
    decreases b.len(),
{
    if b.len() == 0 {
        assert(a + b =~= a);
        assert(events_of(a) + events_of(b) =~= events_of(a));
    } else {
        lemma_events_of_concat(a, b.drop_last());
        assert((a + b).drop_last() =~= a + b.drop_last());
        assert((a + b).last() == b.last());
        match b.last() {
            ActionView::Emit(e) => {
                assert(events_of(a) + events_of(b.drop_last()).push(e) =~= (events_of(a)
                    + events_of(b.drop_last())).push(e));
            },
            _ => {},
        }
    }
}

/// A `Play` of station `b` sent while the `Play` of station `a` is still
/// opening is taken only after `a`'s outcome: the events hold `a`'s outcome
/// (`Started` or `Error`) strictly before `b`'s `Started`, and the stream
/// left playing is `b`'s.
pub proof fn lemma_play_order(
    pre: ActorView,
    a: Station,
    volume_a: i64,
    outcome_a: ActorInput,
    b: Station,
    volume_b: i64,
    headers_b: StreamHeaders,
)
    requires
        !(pre.phase is Opening),
        outcome_a is StreamOpened || outcome_a is StreamFailed,
    ensures
        ({
            let (post, acts) = spec_run(
                pre,
                seq![
                    ActorInput::Command(AudioCommand::Play { station: a, volume_percent: volume_a }),
                    outcome_a,
                    ActorInput::Command(AudioCommand::Play { station: b, volume_percent: volume_b }),
                    ActorInput::StreamOpened(headers_b),
                ],
            );
            &&& events_of(acts) == seq![
                outcome_event(a, outcome_a),
                EventView::Started(spec_playback_state(b, headers_b)),
            ]
            &&& post.phase == (ActorPhase::Active { station: b })
        }),
{
    let i0 = ActorInput::Command(AudioCommand::Play { station: a, volume_percent: volume_a });
    let i2 = ActorInput::Command(AudioCommand::Play { station: b, volume_percent: volume_b });
    let i3 = ActorInput::StreamOpened(headers_b);
    let s = seq![i0, outcome_a, i2, i3];
    assert(s.drop_last() =~= seq![i0, outcome_a, i2]);
    assert(s.drop_last().drop_last() =~= seq![i0, outcome_a]);
    assert(s.drop_last().drop_last().drop_last() =~= seq![i0]);
    assert(seq![i0].drop_last() =~= Seq::<ActorInput>::empty());
    let (p1, a1) = spec_step(pre, i0);
    let (p2, a2) = spec_step(p1, outcome_a);
    let (p3, a3) = spec_step(p2, i2);
    let (p4, a4) = spec_step(p3, i3);
    assert(seq![i0].last() == i0);
    assert(seq![i0, outcome_a].last() == outcome_a);
    assert(seq![i0, outcome_a, i2].last() == i2);
    assert(s.last() == i3);
    assert(spec_run(pre, Seq::<ActorInput>::empty()) == (pre, Seq::<ActionView>::empty()));
    assert(spec_run(pre, seq![i0]) == (p1, Seq::<ActionView>::empty() + a1));
    assert(spec_run(pre, seq![i0, outcome_a]) == (p2, (Seq::<ActionView>::empty() + a1) + a2));
    assert(spec_run(pre, seq![i0, outcome_a, i2]) == (p3, (Seq::<ActionView>::empty() + a1) + a2
        + a3));
    let all = ((Seq::<ActionView>::empty() + a1) + a2 + a3) + a4;
    assert(spec_run(pre, s) == (p4, all));
    lemma_events_of_concat(Seq::<ActionView>::empty() + a1, a2);
    lemma_events_of_concat((Seq::<ActionView>::empty() + a1) + a2, a3);
    lemma_events_of_concat((Seq::<ActionView>::empty() + a1) + a2 + a3, a4);
    lemma_events_of_concat(Seq::<ActionView>::empty(), a1);
    reveal_with_fuel(events_of, 4);
    assert(events_of(Seq::<ActionView>::empty()) =~= Seq::<EventView>::empty());
    assert(events_of(a1) =~= Seq::<EventView>::empty());
    assert(events_of(a2) =~= seq![outcome_event(a, outcome_a)]);
    assert(events_of(a3) =~= Seq::<EventView>::empty());
    assert(events_of(a4) =~= seq![EventView::Started(spec_playback_state(b, headers_b))]);
    assert(events_of(all) =~= seq![
        outcome_event(a, outcome_a),
        EventView::Started(spec_playback_state(b, headers_b)),
    ]);
}

/// A `Play` taken by an actor that is not opening a stream, followed by the
/// outcome of that opening, emits exactly one event: `Started` with the
/// stream's snapshot, or `Error` with the failure's message.
pub proof fn lemma_one_outcome_per_play(pre: ActorView, station: Station, volume: i64, outcome: ActorInput)
    requires
        !(pre.phase is Opening),
        outcome is StreamOpened || outcome is StreamFailed,
    ensures
        events_of(
            spec_run(
                pre,
                seq![
                    ActorInput::Command(AudioCommand::Play { station, volume_percent: volume }),
                    outcome,
                ],
            ).1,
        ) == seq![outcome_event(station, outcome)],
{
    let i0 = ActorInput::Command(AudioCommand::Play { station, volume_percent: volume });
    let s = seq![i0, outcome];
    assert(s.drop_last() =~= seq![i0]);
    assert(seq![i0].drop_last() =~= Seq::<ActorInput>::empty());
    assert(seq![i0].last() == i0);
    assert(s.last() == outcome);
    let (p1, a1) = spec_step(pre, i0);
    let (p2, a2) = spec_step(p1, outcome);
    assert(spec_run(pre, Seq::<ActorInput>::empty()) == (pre, Seq::<ActionView>::empty()));
    assert(spec_run(pre, seq![i0]) == (p1, Seq::<ActionView>::empty() + a1));
    assert(spec_run(pre, s) == (p2, (Seq::<ActionView>::empty() + a1) + a2));
    lemma_events_of_concat(Seq::<ActionView>::empty(), a1);
    lemma_events_of_concat(Seq::<ActionView>::empty() + a1, a2);
    reveal_with_fuel(events_of, 4);
    assert(events_of(Seq::<ActionView>::empty()) =~= Seq::<EventView>::empty());
    assert(events_of(a1) =~= Seq::<EventView>::empty());
    assert(events_of(a2) =~= seq![outcome_event(station, outcome)]);
    assert(events_of((Seq::<ActionView>::empty() + a1) + a2) =~= seq![outcome_event(station, outcome)]);
}

/// Stopping an idle actor is no error: it stays idle and emits exactly one
/// `Stopped`.
pub proof fn lemma_stop_when_idle(pre: ActorView)
    requires
        pre.phase is Idle,
    ensures
        spec_step(pre, ActorInput::Command(AudioCommand::Stop)).0 == pre,
        events_of(spec_step(pre, ActorInput::Command(AudioCommand::Stop)).1) == seq![
            EventView::Stopped,
        ],
        spec_step(pre, ActorInput::Command(AudioCommand::Stop)).1 == seq![
            ActionView::Emit(EventView::Stopped),
        ],
{
    let acts = spec_step(pre, ActorInput::Command(AudioCommand::Stop)).1;
    assert(acts == seq![ActionView::Emit(EventView::Stopped)]);
    assert(acts.last() == ActionView::Emit(EventView::Stopped));
    assert(events_of(Seq::<ActionView>::empty()) =~= Seq::<EventView>::empty());
    assert(acts.drop_last() =~= Seq::<ActionView>::empty());
    assert(events_of(acts) =~= seq![EventView::Stopped]);
}

} // verus!
