//! The playback engine.
//!
//! The engine owns the play queue, the play history and the playback state,
//! and decides what happens on each command. It never touches the audio
//! output itself: where a decision depends on the output sink, the caller
//! passes in what the sink reports, and where the sink has to act, the engine
//! returns what it has to do.

use crate::library::album::{Album, AlbumView};
use crate::library::artist::{Artist, ArtistView};
use crate::library::track::{track_views, Track, TrackView};
use crate::playlist::{Playlist, PlaylistView};
use crate::time::Duration;
use crate::time::{max_nanos, NANOS_PER_MILLI};
use rand::seq::SliceRandom;
use std::collections::VecDeque;
use vstd::prelude::*;

pub mod advance;

verus! {

/// Remaining play time, in milliseconds, below which gapless playback moves
/// on to the next track.
pub const GAPLESS_THRESHOLD_MILLIS: u64 = 100;

/// What happens when a track ends or is skipped.
#[derive(Clone, Copy, Debug, PartialEq, Eq, Structural)]
pub enum Repeat {
    /// Go on with the queue.
    Off,
    /// Play the current track again.
    One,
    /// Go on with the queue, and put each track that was played back at its
    /// end.
    All,
}

impl Default for Repeat {
    fn default() -> (repeat: Self)
        ensures
            repeat == Repeat::Off,
    {
        Repeat::Off
    }
}

impl Repeat {
    /// The mode that follows `self` in the cycle off, one, all.
    pub open spec fn successor(self) -> Repeat {
        match self {
            Repeat::Off => Repeat::One,
            Repeat::One => Repeat::All,
            Repeat::All => Repeat::Off,
        }
    }

    /// The mode that follows `self` in the cycle off, one, all.
    pub fn next(self) -> (next: Repeat)
        ensures
            next == self.successor(),
    {
        match self {
            Repeat::Off => Repeat::One,
            Repeat::One => Repeat::All,
            Repeat::All => Repeat::Off,
        }
    }
}

/// The status of playback as a remote control sees it.
#[derive(Clone, Copy, Debug, PartialEq, Eq, Structural)]
pub enum PlaybackStatus {
    Playing,
    Paused,
    Stopped,
}

/// The view of an optional track.
pub open spec fn track_option_view(track: Option<Track>) -> Option<TrackView> {
    match track {
        Some(t) => Some(t@),
        None => None,
    }
}

/// The view of an optional duration: its nanoseconds.
pub open spec fn duration_option_view(duration: Option<Duration>) -> Option<nat> {
    match duration {
        Some(d) => Some(d@),
        None => None,
    }
}

/// What is playing, how far it has come, and the playback flags.
#[derive(Debug)]
pub struct MediaState {
    pub current_track: Option<Track>,
    pub current_track_progress: Option<Duration>,
    pub playing: bool,
    pub stopped: bool,
    pub shuffle: bool,
    pub repeat: Repeat,
}

/// What a [`MediaState`] holds, as plain values.
pub struct MediaStateView {
    pub current_track: Option<TrackView>,
    /// Progress within the current track, in nanoseconds.
    pub current_track_progress: Option<nat>,
    pub playing: bool,
    pub stopped: bool,
    pub shuffle: bool,
    pub repeat: Repeat,
}

impl View for MediaState {
    type V = MediaStateView;

    open spec fn view(&self) -> MediaStateView {
        MediaStateView {
            current_track: track_option_view(self.current_track),
            current_track_progress: duration_option_view(self.current_track_progress),
            playing: self.playing,
            stopped: self.stopped,
            shuffle: self.shuffle,
            repeat: self.repeat,
        }
    }
}

impl MediaStateView {
    /// The state at engine start: nothing loaded, every flag off.
    pub open spec fn initial() -> MediaStateView {
        MediaStateView {
            current_track: None,
            current_track_progress: None,
            playing: false,
            stopped: false,
            shuffle: false,
            repeat: Repeat::Off,
        }
    }

    /// Progress is only kept, and playback only runs, while a track is
    /// loaded.
    pub open spec fn wf(self) -> bool {
        &&& self.current_track_progress is Some ==> self.current_track is Some
        &&& self.playing ==> self.current_track is Some
    }

    /// The state with no track loaded and the flags as they are.
    pub open spec fn unloaded(self) -> MediaStateView {
        MediaStateView {
            current_track: None,
            current_track_progress: None,
            playing: false,
            ..self
        }
    }

    /// The state with `track` freshly loaded and playing from its start.
    pub open spec fn loaded(self, track: TrackView) -> MediaStateView {
        MediaStateView {
            current_track: Some(track),
            current_track_progress: Some(0),
            playing: true,
            ..self
        }
    }

    /// What is left to play of the current track; nothing when no track is
    /// loaded, no progress is kept, or progress has passed the track's end.
    pub open spec fn time_remaining(self) -> nat {
        match (self.current_track, self.current_track_progress) {
            (Some(track), Some(progress)) => if track.length >= progress {
                (track.length - progress) as nat
            } else {
                0
            },
            _ => 0,
        }
    }
}

impl MediaStateView {
    /// The status that a remote control is told: playing while playback
    /// runs, else stopped after a stop, else paused.
    pub open spec fn playback_status(self) -> PlaybackStatus {
        if self.playing {
            PlaybackStatus::Playing
        } else if self.stopped {
            PlaybackStatus::Stopped
        } else {
            PlaybackStatus::Paused
        }
    }
}

impl MediaState {
    /// The status that a remote control is told.
    pub fn playback_status(&self) -> (status: PlaybackStatus)
        ensures
            status == self@.playback_status(),
    {
        if self.playing {
            PlaybackStatus::Playing
        } else if self.stopped {
            PlaybackStatus::Stopped
        } else {
            PlaybackStatus::Paused
        }
    }
}

impl Default for MediaState {
    fn default() -> (state: Self)
        ensures
            state@ == MediaStateView::initial(),
    {
        MediaState {
            current_track: None,
            current_track_progress: None,
            playing: false,
            stopped: false,
            shuffle: false,
            repeat: Repeat::Off,
        }
    }
}

impl Clone for MediaState {
    fn clone(&self) -> (copy: Self)
        ensures
            copy@ == self@,
    {
        MediaState {
            current_track: self.current_track.clone(),
            current_track_progress: self.current_track_progress,
            playing: self.playing,
            stopped: self.stopped,
            shuffle: self.shuffle,
            repeat: self.repeat,
        }
    }
}

/// Something that can be put on the queue as a list of tracks.
#[derive(Debug)]
pub enum Queueable {
    /// Everything by an artist.
    Artist(Artist),
    /// The tracks of an album.
    Album(Album),
    /// The tracks of a playlist.
    Playlist(Playlist),
    /// The given tracks, the first of which is the one the user chose.
    TrackList(Vec<Track>),
    /// Nothing.
    Empty,
}

/// A [`Queueable`] as plain values.
pub enum QueueableView {
    Artist(ArtistView),
    Album(AlbumView),
    Playlist(PlaylistView),
    TrackList(Seq<TrackView>),
    Empty,
}

impl View for Queueable {
    type V = QueueableView;

    open spec fn view(&self) -> QueueableView {
        match *self {
            Queueable::Artist(artist) => QueueableView::Artist(artist@),
            Queueable::Album(album) => QueueableView::Album(album@),
            Queueable::Playlist(playlist) => QueueableView::Playlist(playlist@),
            Queueable::TrackList(tracks) => QueueableView::TrackList(track_views(tracks@)),
            Queueable::Empty => QueueableView::Empty,
        }
    }
}

impl QueueableView {
    /// The tracks that the queueable stands for, in play order.
    ///
    /// An artist stands for the tracks of their first album, the one that by
    /// convention holds all their tracks; an artist without albums stands for
    /// no tracks.
    pub open spec fn tracks(self) -> Seq<TrackView> {
        match self {
            QueueableView::Artist(artist) => if artist.albums.len() > 0 {
                artist.albums[0].tracks
            } else {
                Seq::empty()
            },
            QueueableView::Album(album) => album.tracks,
            QueueableView::Playlist(playlist) => playlist.tracks,
            QueueableView::TrackList(tracks) => tracks,
            QueueableView::Empty => Seq::empty(),
        }
    }
}

impl Queueable {
    /// The tracks that the queueable stands for, in play order.
    pub open spec fn tracks(self) -> Seq<TrackView> {
        self@.tracks()
    }

    /// The tracks that the queueable stands for, in play order.
    pub fn get_tracks(&self) -> (tracks: Vec<Track>)
        ensures
            track_views(tracks@) == self.tracks(),
    {
        match self {
            Queueable::Artist(artist) => {
                if artist.albums.len() > 0 {
                    let tracks = artist.albums[0].tracks.clone();
                    assert(track_views(tracks@) =~= track_views(artist.albums[0].tracks@));
                    assert(artist@.albums[0] == artist.albums[0]@);
                    tracks
                } else {
                    let tracks = Vec::new();
                    assert(track_views(tracks@) =~= Seq::empty());
                    tracks
                }
            },
            Queueable::Album(album) => {
                let tracks = album.tracks.clone();
                assert(track_views(tracks@) =~= track_views(album.tracks@));
                tracks
            },
            Queueable::Playlist(playlist) => {
                let tracks = playlist.tracks.clone();
                assert(track_views(tracks@) =~= track_views(playlist.tracks@));
                tracks
            },
            Queueable::TrackList(list) => {
                let tracks = list.clone();
                assert(track_views(tracks@) =~= track_views(list@));
                tracks
            },
            Queueable::Empty => {
                let tracks = Vec::new();
                assert(track_views(tracks@) =~= Seq::empty());
                tracks
            },
        }
    }
}

/// A track that the engine wants loaded into the output sink.
///
/// The caller opens and decodes the track's file and then hands the track
/// to [`MediaSystem::play_track`] with the same `interrupt`.
#[derive(Debug)]
pub struct LoadRequest {
    pub track: Track,
    /// Whether audio that is still in the sink is to be thrown away first.
    pub interrupt: bool,
}

/// What a [`LoadRequest`] holds, as plain values.
pub struct LoadRequestView {
    pub track: TrackView,
    pub interrupt: bool,
}

impl View for LoadRequest {
    type V = LoadRequestView;

    open spec fn view(&self) -> LoadRequestView {
        LoadRequestView { track: self.track@, interrupt: self.interrupt }
    }
}

/// A command as far as playback is concerned.
#[derive(Debug)]
pub enum PlaybackCommand {
    Play,
    Pause,
    Stop,
    TogglePlay,
    ToggleShuffle,
    ToggleRepeat,
    /// Replace the queue by what the queueable stands for and play it.
    EnqueueAndPlay(Queueable),
    /// Play this track at once.
    PlayTrack(Track),
    NextTrack,
    PrevTrack,
}

/// A [`PlaybackCommand`] as plain values.
pub enum PlaybackCommandView {
    Play,
    Pause,
    Stop,
    TogglePlay,
    ToggleShuffle,
    ToggleRepeat,
    EnqueueAndPlay(QueueableView),
    PlayTrack(TrackView),
    NextTrack,
    PrevTrack,
}

impl View for PlaybackCommand {
    type V = PlaybackCommandView;

    open spec fn view(&self) -> PlaybackCommandView {
        match *self {
            PlaybackCommand::Play => PlaybackCommandView::Play,
            PlaybackCommand::Pause => PlaybackCommandView::Pause,
            PlaybackCommand::Stop => PlaybackCommandView::Stop,
            PlaybackCommand::TogglePlay => PlaybackCommandView::TogglePlay,
            PlaybackCommand::ToggleShuffle => PlaybackCommandView::ToggleShuffle,
            PlaybackCommand::ToggleRepeat => PlaybackCommandView::ToggleRepeat,
            PlaybackCommand::EnqueueAndPlay(queueable) => PlaybackCommandView::EnqueueAndPlay(
                queueable@,
            ),
            PlaybackCommand::PlayTrack(track) => PlaybackCommandView::PlayTrack(track@),
            PlaybackCommand::NextTrack => PlaybackCommandView::NextTrack,
            PlaybackCommand::PrevTrack => PlaybackCommandView::PrevTrack,
        }
    }
}

/// What the caller has to do with the output sink after a command.
#[derive(Debug)]
pub enum SinkAction {
    /// Nothing.
    Nothing,
    /// Resume the output.
    Resume,
    /// Pause the output.
    Pause,
    /// Halt the output and replace the sink by a fresh one.
    Halt,
    /// Load the requested track.
    Load(LoadRequest),
}

/// A [`SinkAction`] as plain values.
pub enum SinkActionView {
    Nothing,
    Resume,
    Pause,
    Halt,
    Load(LoadRequestView),
}

impl View for SinkAction {
    type V = SinkActionView;

    open spec fn view(&self) -> SinkActionView {
        match *self {
            SinkAction::Nothing => SinkActionView::Nothing,
            SinkAction::Resume => SinkActionView::Resume,
            SinkAction::Pause => SinkActionView::Pause,
            SinkAction::Halt => SinkActionView::Halt,
            SinkAction::Load(request) => SinkActionView::Load(request@),
        }
    }
}

/// The sink action that asks for `request` to be loaded, if there is one.
pub open spec fn load_action(request: Option<LoadRequestView>) -> SinkActionView {
    match request {
        Some(r) => SinkActionView::Load(r),
        None => SinkActionView::Nothing,
    }
}

/// The view of an optional load request.
pub open spec fn request_view(request: Option<LoadRequest>) -> Option<LoadRequestView> {
    match request {
        Some(r) => Some(r@),
        None => None,
    }
}

/// The place of the first occurrence of `track` in `tracks`, if any, as the
/// number of tracks before it; the length of `tracks` when there is none.
pub open spec fn first_index_of(tracks: Seq<TrackView>, track: TrackView) -> nat
    decreases tracks.len(),
{
    if tracks.len() == 0 {
        0
    } else if tracks[0] == track {
        0
    } else {
        1 + first_index_of(tracks.drop_first(), track)
    }
}

/// `tracks` with its first `mid` tracks moved to the end.
pub open spec fn rotated(tracks: Seq<TrackView>, mid: int) -> Seq<TrackView>
    recommends
        0 <= mid <= tracks.len(),
{
    tracks.subrange(mid, tracks.len() as int) + tracks.subrange(0, mid)
}

/// `ordered` turned so that it starts right after the first occurrence of
/// `current`; `ordered` itself when nothing is current or `current` does not
/// occur in it.
pub open spec fn resumed_order(ordered: Seq<TrackView>, current: Option<TrackView>) -> Seq<
    TrackView,
> {
    match current {
        Some(track) => if first_index_of(ordered, track) < ordered.len() {
            rotated(ordered, first_index_of(ordered, track) as int + 1)
        } else {
            ordered
        },
        None => ordered,
    }
}

/// The engine as plain values: the playback state, the queue that is played
/// from, the queue in its unshuffled order, and the history of played tracks
/// with the most recent one last.
pub struct MediaSystemView {
    pub state: MediaStateView,
    pub queue: Seq<TrackView>,
    pub ordered_queue: Seq<TrackView>,
    pub history: Seq<TrackView>,
    pub gapless_playback: bool,
}

impl MediaSystemView {
    /// A fresh engine: initial state, nothing queued, nothing played.
    pub open spec fn initial(gapless_playback: bool) -> MediaSystemView {
        MediaSystemView {
            state: MediaStateView::initial(),
            queue: Seq::empty(),
            ordered_queue: Seq::empty(),
            history: Seq::empty(),
            gapless_playback,
        }
    }

    /// The engine's invariant: that of its playback state.
    pub open spec fn wf(self) -> bool {
        self.state.wf()
    }

    /// Whether `play` has anything to resume.
    pub open spec fn can_resume(self) -> bool {
        self.state.current_track is Some && !self.state.playing
    }

    /// Whether `pause` has anything to pause.
    pub open spec fn can_pause(self) -> bool {
        self.state.current_track is Some && self.state.playing
    }

    /// The engine after `play`.
    pub open spec fn after_play(self) -> MediaSystemView {
        if self.can_resume() {
            MediaSystemView {
                state: MediaStateView { playing: true, stopped: false, ..self.state },
                ..self
            }
        } else {
            self
        }
    }

    /// The engine after `pause`.
    pub open spec fn after_pause(self) -> MediaSystemView {
        if self.can_pause() {
            MediaSystemView { state: MediaStateView { playing: false, ..self.state }, ..self }
        } else {
            self
        }
    }

    /// The engine after `stop`, given whether the sink was empty.
    pub open spec fn after_stop(self, sink_empty: bool) -> MediaSystemView {
        if sink_empty {
            self
        } else {
            MediaSystemView { state: MediaStateView { stopped: true, ..self.state }, ..self }
        }
    }

    /// The engine after `play_track`, given whether the sink was empty.
    pub open spec fn after_play_track(
        self,
        track: TrackView,
        interrupt: bool,
        sink_empty: bool,
    ) -> MediaSystemView {
        let stopped = if interrupt {
            self.after_stop(sink_empty)
        } else {
            self
        };
        MediaSystemView { state: stopped.state.loaded(track), ..stopped }
    }

    /// The track that `play_next` moves on to: under repeat-one the current
    /// track, else the head of the queue.
    pub open spec fn next_track(self) -> Option<TrackView> {
        if self.state.repeat == Repeat::One {
            self.state.current_track
        } else if self.queue.len() > 0 {
            Some(self.queue[0])
        } else {
            None
        }
    }

    /// What `play_next` asks to have loaded.
    pub open spec fn next_request(self, interrupt: bool) -> Option<LoadRequestView> {
        match self.next_track() {
            Some(track) => Some(
                LoadRequestView { track, interrupt: interrupt || !self.gapless_playback },
            ),
            None => None,
        }
    }

    /// The engine after `play_next`, before the requested track is loaded.
    ///
    /// Without a track to move on to nothing changes. Under repeat-one only
    /// the current track is unloaded. Otherwise the head leaves the queue,
    /// and a track that was current goes onto the history and, under
    /// repeat-all, to the end of the queue as well.
    pub open spec fn after_play_next(self) -> MediaSystemView {
        if self.next_track() is None {
            self
        } else if self.state.repeat == Repeat::One {
            MediaSystemView { state: self.state.unloaded(), ..self }
        } else {
            let rest = self.queue.drop_first();
            match self.state.current_track {
                Some(current) => MediaSystemView {
                    state: self.state.unloaded(),
                    queue: if self.state.repeat == Repeat::All {
                        rest.push(current)
                    } else {
                        rest
                    },
                    history: self.history.push(current),
                    ..self
                },
                None => MediaSystemView { state: self.state.unloaded(), queue: rest, ..self },
            }
        }
    }

    /// What `play_prev` asks to have loaded: the most recent track of the
    /// history, else the current track once more.
    pub open spec fn prev_request(self) -> Option<LoadRequestView> {
        if self.history.len() > 0 {
            Some(LoadRequestView { track: self.history.last(), interrupt: true })
        } else {
            match self.state.current_track {
                Some(track) => Some(LoadRequestView { track, interrupt: true }),
                None => None,
            }
        }
    }

    /// The engine after `play_prev`, before the requested track is loaded:
    /// the most recent track has left the history, and a track that is
    /// current stands at the head of the queue.
    pub open spec fn after_play_prev(self) -> MediaSystemView {
        if self.history.len() > 0 {
            MediaSystemView {
                queue: match self.state.current_track {
                    Some(current) => seq![current] + self.queue,
                    None => self.queue,
                },
                history: self.history.drop_last(),
                ..self
            }
        } else {
            self
        }
    }

    /// The engine after `enqueue`.
    pub open spec fn after_enqueue(self, track: TrackView) -> MediaSystemView {
        MediaSystemView {
            queue: self.queue.push(track),
            ordered_queue: self.ordered_queue.push(track),
            ..self
        }
    }

    /// Whether `after` and `request` can be the outcome of
    /// `enqueue_and_play` of `queueable`.
    ///
    /// An empty queueable changes nothing. Any other replaces both queues by
    /// its tracks, asks for the first track to play to be loaded, and leaves
    /// the rest in the queue: with shuffle off in their order; with shuffle
    /// on in some order, where for a track list the first track to play is
    /// still the first of the list.
    pub open spec fn enqueued_and_played(
        self,
        queueable: QueueableView,
        after: MediaSystemView,
        request: Option<LoadRequestView>,
    ) -> bool {
        let tracks = queueable.tracks();
        if queueable is Empty {
            after == self && request is None
        } else {
            &&& after.state == self.state
            &&& after.history == self.history
            &&& after.gapless_playback == self.gapless_playback
            &&& after.ordered_queue == tracks
            &&& request is Some <==> tracks.len() > 0
            &&& match request {
                Some(r) => {
                    &&& r.interrupt
                    &&& (seq![r.track] + after.queue).to_multiset() == tracks.to_multiset()
                    &&& queueable is TrackList || !self.state.shuffle ==> r.track == tracks[0]
                    &&& !self.state.shuffle ==> after.queue == tracks.drop_first()
                },
                None => after.queue.len() == 0,
            }
        }
    }

    /// Whether `after` and `action` can be the outcome of the command
    /// `command`, given whether the sink was empty.
    ///
    /// Stopping also empties the queue. Playing a given track asks for it to
    /// be loaded and changes nothing until it is. Every other command does
    /// what the method of its name does.
    pub open spec fn applied(
        self,
        command: PlaybackCommandView,
        sink_empty: bool,
        after: MediaSystemView,
        action: SinkActionView,
    ) -> bool {
        match command {
            PlaybackCommandView::Play => {
                &&& after == self.after_play()
                &&& action == if self.can_resume() {
                    SinkActionView::Resume
                } else {
                    SinkActionView::Nothing
                }
            },
            PlaybackCommandView::Pause => {
                &&& after == self.after_pause()
                &&& action == if self.can_pause() {
                    SinkActionView::Pause
                } else {
                    SinkActionView::Nothing
                }
            },
            PlaybackCommandView::Stop => {
                &&& after == (MediaSystemView {
                    queue: Seq::empty(),
                    ..self.after_stop(sink_empty)
                })
                &&& action == if sink_empty {
                    SinkActionView::Nothing
                } else {
                    SinkActionView::Halt
                }
            },
            PlaybackCommandView::TogglePlay => {
                &&& after == if self.state.playing {
                    self.after_pause()
                } else {
                    self.after_play()
                }
                &&& action == if self.state.current_track is None {
                    SinkActionView::Nothing
                } else if self.state.playing {
                    SinkActionView::Pause
                } else {
                    SinkActionView::Resume
                }
            },
            PlaybackCommandView::ToggleShuffle => {
                &&& action == SinkActionView::Nothing
                &&& if self.state.shuffle {
                    after == self.after_shuffle_off()
                } else {
                    self.shuffled_on(after)
                }
            },
            PlaybackCommandView::ToggleRepeat => {
                &&& after == self.after_toggle_repeat()
                &&& action == SinkActionView::Nothing
            },
            PlaybackCommandView::EnqueueAndPlay(queueable) => {
                exists|request: Option<LoadRequestView>|
                    self.enqueued_and_played(queueable, after, request) && action
                        == load_action(request)
            },
            PlaybackCommandView::PlayTrack(track) => {
                &&& after == self
                &&& action == SinkActionView::Load(LoadRequestView { track, interrupt: true })
            },
            PlaybackCommandView::NextTrack => {
                &&& after == self.after_play_next()
                &&& action == load_action(self.next_request(true))
            },
            PlaybackCommandView::PrevTrack => {
                &&& after == self.after_play_prev()
                &&& action == load_action(self.prev_request())
            },
        }
    }

    /// The engine after the progress update of a `tick`: progress is only
    /// updated while playback runs.
    pub open spec fn after_tick_progress(self, elapsed: nat, sink_empty: bool) -> MediaSystemView {
        if self.state.playing {
            self.after_update_progress(elapsed, sink_empty)
        } else {
            self
        }
    }

    /// The engine after a `tick`, before a requested track is loaded.
    pub open spec fn after_tick(self, elapsed: nat, sink_empty: bool) -> MediaSystemView {
        let progressed = self.after_tick_progress(elapsed, sink_empty);
        if progressed.auto_advance_due(sink_empty) {
            progressed.after_play_next()
        } else {
            progressed
        }
    }

    /// What a `tick` asks to have loaded.
    pub open spec fn tick_request(self, elapsed: nat, sink_empty: bool) -> Option<
        LoadRequestView,
    > {
        let progressed = self.after_tick_progress(elapsed, sink_empty);
        if progressed.auto_advance_due(sink_empty) {
            progressed.next_request(false)
        } else {
            None
        }
    }

    /// The engine after `toggle_repeat`.
    pub open spec fn after_toggle_repeat(self) -> MediaSystemView {
        MediaSystemView {
            state: MediaStateView { repeat: self.state.repeat.successor(), ..self.state },
            ..self
        }
    }

    /// The engine after a `toggle_shuffle` that turns shuffle off.
    pub open spec fn after_shuffle_off(self) -> MediaSystemView {
        MediaSystemView {
            state: MediaStateView { shuffle: false, ..self.state },
            queue: resumed_order(self.ordered_queue, self.state.current_track),
            ..self
        }
    }

    /// Whether `after` can be the engine after a `toggle_shuffle` that turns
    /// shuffle on: the queue holds the same tracks in some order.
    pub open spec fn shuffled_on(self, after: MediaSystemView) -> bool {
        &&& after.state == (MediaStateView { shuffle: true, ..self.state })
        &&& after.queue.to_multiset() == self.queue.to_multiset()
        &&& after.ordered_queue == self.ordered_queue
        &&& after.history == self.history
        &&& after.gapless_playback == self.gapless_playback
    }

    /// Progress after `elapsed` more nanoseconds, held at the longest
    /// duration there is.
    pub open spec fn advanced_progress(self, elapsed: nat) -> Option<nat> {
        match self.state.current_track_progress {
            Some(progress) => Some(
                if progress + elapsed <= max_nanos() {
                    progress + elapsed
                } else {
                    max_nanos()
                },
            ),
            None => None,
        }
    }

    /// The engine after `update_progress`, given whether the sink was empty.
    ///
    /// With audio left in the sink, progress moves on by `elapsed`. With the
    /// sink empty the track has ended: playback and progress are cleared, and
    /// so is the current track unless it is to be repeated.
    pub open spec fn after_update_progress(self, elapsed: nat, sink_empty: bool) -> MediaSystemView {
        if sink_empty {
            MediaSystemView {
                state: MediaStateView {
                    current_track: if self.state.repeat == Repeat::One {
                        self.state.current_track
                    } else {
                        None
                    },
                    current_track_progress: None,
                    playing: false,
                    ..self.state
                },
                ..self
            }
        } else {
            MediaSystemView {
                state: MediaStateView {
                    current_track_progress: self.advanced_progress(elapsed),
                    ..self.state
                },
                ..self
            }
        }
    }

    /// Whether playback is to move on to the next track by itself.
    ///
    /// With gapless playback that is when less than the threshold is left of
    /// the current track, without it when the sink has run empty; in both
    /// cases only while the queue holds a track.
    pub open spec fn auto_advance_due(self, sink_empty: bool) -> bool {
        &&& self.queue.len() > 0
        &&& if self.gapless_playback {
            self.state.time_remaining() < GAPLESS_THRESHOLD_MILLIS as nat * NANOS_PER_MILLI as nat
        } else {
            sink_empty
        }
    }
}

/// Puts the tracks of the queue into a random order.
///
/// Calls `shuffle` of rand's `SliceRandom` on the queue's tracks with the
/// generator of `rand::thread_rng`. The shuffle only swaps tracks, so all
/// that is claimed is that the queue holds the same tracks as before, each
/// as often as before; the order is left open. The generator is seeded by
/// the system and panics where the system gives it no seed.
#[verifier::external_body]
fn shuffle_queue(queue: &mut VecDeque<Track>)
    ensures
        track_views(final(queue)@).to_multiset() == track_views(old(queue)@).to_multiset(),
{
    queue.make_contiguous().shuffle(&mut rand::thread_rng());
}

/// `first_index_of` is the first place at which `track` stands, or the
/// length where it stands nowhere.
proof fn lemma_first_index_of(tracks: Seq<TrackView>, track: TrackView, index: int)
    requires
        0 <= index <= tracks.len(),
        forall|j: int| 0 <= j < index ==> tracks[j] != track,
        index < tracks.len() ==> tracks[index] == track,
    ensures
        first_index_of(tracks, track) == index,
    decreases tracks.len(),
{
    if tracks.len() > 0 && index > 0 {
        let rest = tracks.drop_first();
        assert forall|j: int| 0 <= j < index - 1 implies rest[j] != track by {
            assert(rest[j] == tracks[j + 1]);
        }
        lemma_first_index_of(rest, track, index - 1);
    }
}

/// The place of the first track of `tracks` that equals `track`, or the
/// length of `tracks` when there is none.
fn position_of(tracks: &VecDeque<Track>, track: &Track) -> (index: usize)
    ensures
        index == first_index_of(track_views(tracks@), track@),
        index <= tracks@.len(),
{
    let mut i: usize = 0;
    while i < tracks.len()
        invariant
            i <= tracks.len(),
            forall|j: int| 0 <= j < i ==> track_views(tracks@)[j] != track@,
        decreases tracks.len() - i,
    {
        assert(track_views(tracks@)[i as int] == tracks@[i as int]@);
        if tracks[i] == *track {
            proof {
                lemma_first_index_of(track_views(tracks@), track@, i as int);
            }
            return i;
        }
        i += 1;
    }
    proof {
        lemma_first_index_of(track_views(tracks@), track@, i as int);
    }
    i
}

/// Copies of the tracks of `tracks` from place `from` up to place `to`,
/// added to the end of `queue`.
fn extend_with_copies(queue: &mut VecDeque<Track>, tracks: &VecDeque<Track>, from: usize, to: usize)
    requires
        from <= to <= tracks@.len(),
    ensures
        track_views(final(queue)@) == track_views(old(queue)@) + track_views(tracks@).subrange(
            from as int,
            to as int,
        ),
{
    let mut k: usize = from;
    assert(track_views(queue@) =~= track_views(old(queue)@) + track_views(tracks@).subrange(
        from as int,
        k as int,
    ));
    while k < to
        invariant
            from <= k <= to <= tracks@.len(),
            track_views(queue@) == track_views(old(queue)@) + track_views(tracks@).subrange(
                from as int,
                k as int,
            ),
        decreases to - k,
    {
        let ghost before = track_views(queue@);
        queue.push_back(tracks[k].clone());
        assert(track_views(queue@) =~= before.push(tracks@[k as int]@));
        k += 1;
        assert(track_views(queue@) =~= track_views(old(queue)@) + track_views(tracks@).subrange(
            from as int,
            k as int,
        ));
    }
}

/// The playback state, kept so that progress is only held, and playback only
/// runs, while a track is loaded.
struct Playback {
    state: MediaState,
}

impl Playback {
    #[verifier::type_invariant]
    closed spec fn inv(self) -> bool {
        self.state@.wf()
    }
}

/// The playback engine: the playback state, the queue that is played from,
/// the queue in its unshuffled order and the history of played tracks.
pub struct MediaSystem {
    playback: Playback,
    queue: VecDeque<Track>,
    ordered_queue: VecDeque<Track>,
    history: Vec<Track>,
    gapless_playback: bool,
}

impl View for MediaSystem {
    type V = MediaSystemView;

    closed spec fn view(&self) -> MediaSystemView {
        MediaSystemView {
            state: self.playback.state@,
            queue: track_views(self.queue@),
            ordered_queue: track_views(self.ordered_queue@),
            history: track_views(self.history@),
            gapless_playback: self.gapless_playback,
        }
    }
}

impl MediaSystem {
    /// A fresh engine with nothing loaded, queued or played.
    pub fn new(gapless_playback: bool) -> (engine: Self)
        ensures
            engine@ == MediaSystemView::initial(gapless_playback),
            engine@.wf(),
    {
        let engine = MediaSystem {
            playback: Playback { state: MediaState::default() },
            queue: VecDeque::new(),
            ordered_queue: VecDeque::new(),
            history: Vec::new(),
            gapless_playback,
        };
        assert(track_views(engine.queue@) =~= Seq::empty());
        assert(track_views(engine.ordered_queue@) =~= Seq::empty());
        assert(track_views(engine.history@) =~= Seq::empty());
        engine
    }

    /// The current state of playback.
    pub fn state(&self) -> (state: &MediaState)
        ensures
            state@ == self@.state,
            self@.wf(),
    {
        proof {
            use_type_invariant(&self.playback);
        }
        &self.playback.state
    }

    /// Resumes playback if a track is loaded and paused; does nothing
    /// otherwise. Returns whether the sink is to resume.
    pub fn play(&mut self) -> (resume: bool)
        ensures
            final(self)@ == old(self)@.after_play(),
            resume == old(self)@.can_resume(),
            final(self)@.wf(),
    {
        proof {
            use_type_invariant(&self.playback);
        }
        if self.playback.state.current_track.is_some() && !self.playback.state.playing {
            self.playback.state.playing = true;
            self.playback.state.stopped = false;
            true
        } else {
            false
        }
    }

    /// Pauses playback if a track is loaded and playing; does nothing
    /// otherwise. Returns whether the sink is to pause.
    pub fn pause(&mut self) -> (pause: bool)
        ensures
            final(self)@ == old(self)@.after_pause(),
            pause == old(self)@.can_pause(),
            final(self)@.wf(),
    {
        proof {
            use_type_invariant(&self.playback);
        }
        if self.playback.state.current_track.is_some() && self.playback.state.playing {
            self.playback.state.playing = false;
            true
        } else {
            false
        }
    }

    /// Pauses a playing track and resumes a paused one. Returns the status
    /// that playback is in afterwards as far as the sink is concerned:
    /// `Paused` when the sink is to pause, `Playing` when it is to resume,
    /// `Stopped` when no track is loaded and nothing is to be done.
    pub fn toggle_play(&mut self) -> (status: PlaybackStatus)
        ensures
            final(self)@ == if old(self)@.state.playing {
                old(self)@.after_pause()
            } else {
                old(self)@.after_play()
            },
            status == if old(self)@.state.current_track is None {
                PlaybackStatus::Stopped
            } else if old(self)@.state.playing {
                PlaybackStatus::Paused
            } else {
                PlaybackStatus::Playing
            },
            final(self)@.wf(),
    {
        proof {
            use_type_invariant(&self.playback);
        }
        if self.playback.state.current_track.is_some() {
            if self.playback.state.playing {
                self.pause();
                PlaybackStatus::Paused
            } else {
                self.play();
                PlaybackStatus::Playing
            }
        } else {
            PlaybackStatus::Stopped
        }
    }

    /// Stops playback for good if the sink still holds audio; does nothing
    /// when the sink is empty. Returns whether the sink is to be halted and
    /// replaced by a fresh one.
    pub fn stop(&mut self, sink_empty: bool) -> (halt: bool)
        ensures
            final(self)@ == old(self)@.after_stop(sink_empty),
            halt == !sink_empty,
            final(self)@.wf(),
    {
        proof {
            use_type_invariant(&self.playback);
        }
        if !sink_empty {
            self.playback.state.stopped = true;
        }
        !sink_empty
    }

    /// Makes `track`, whose audio the caller has ready, the current track,
    /// playing from its start. With `interrupt` playback is stopped first.
    /// Returns whether the sink is to be halted and replaced by a fresh one
    /// before the track's audio is appended to it.
    pub fn play_track(&mut self, track: &Track, interrupt: bool, sink_empty: bool) -> (halt: bool)
        ensures
            final(self)@ == old(self)@.after_play_track(track@, interrupt, sink_empty),
            halt == (interrupt && !sink_empty),
            final(self)@.wf(),
    {
        proof {
            use_type_invariant(&self.playback);
        }
        let halt = if interrupt {
            self.stop(sink_empty)
        } else {
            false
        };
        self.playback.state.current_track = Some(track.clone());
        self.playback.state.current_track_progress = Some(Duration::zero());
        self.playback.state.playing = true;
        halt
    }

    /// Adds a track to the end of the queue.
    pub fn enqueue(&mut self, track: &Track)
        ensures
            final(self)@ == old(self)@.after_enqueue(track@),
            final(self)@.wf(),
    {
        proof {
            use_type_invariant(&self.playback);
        }
        self.queue.push_back(track.clone());
        self.ordered_queue.push_back(track.clone());
        assert(track_views(self.queue@) =~= track_views(old(self).queue@).push(track@));
        assert(track_views(self.ordered_queue@) =~= track_views(old(self).ordered_queue@).push(
            track@,
        ));
    }

    /// Moves on to the next track. Returns the track to load, if there is
    /// one; until it is loaded no track is current.
    ///
    /// Without gapless playback the sink is always interrupted, whatever
    /// `interrupt` says.
    pub fn play_next(&mut self, interrupt: bool) -> (request: Option<LoadRequest>)
        ensures
            final(self)@ == old(self)@.after_play_next(),
            request_view(request) == old(self)@.next_request(interrupt),
            final(self)@.wf(),
    {
        proof {
            use_type_invariant(&self.playback);
        }
        let repeat = self.playback.state.repeat;
        let next = match repeat {
            Repeat::One => self.playback.state.current_track.clone(),
            _ => self.queue.pop_front(),
        };
        proof {
            if repeat != Repeat::One {
                assert(track_views(self.queue@) =~= if old(self)@.queue.len() > 0 {
                    old(self)@.queue.drop_first()
                } else {
                    old(self)@.queue
                });
                if old(self)@.queue.len() > 0 {
                    assert(old(self)@.queue[0] == old(self).queue@[0]@);
                }
            }
        }
        match next {
            Some(track) => {
                self.playback.state.playing = false;
                self.playback.state.current_track_progress = None;
                let displaced = self.playback.state.current_track.clone();
                self.playback.state.current_track = None;
                match repeat {
                    Repeat::One => {},
                    _ => {
                        if let Some(current) = displaced {
                            if repeat == Repeat::All {
                                self.queue.push_back(current.clone());
                            }
                            self.history.push(current);
                            assert(track_views(self.history@) =~= old(self)@.history.push(
                                current@,
                            ));
                            assert(track_views(self.queue@) =~= if repeat == Repeat::All {
                                old(self)@.queue.drop_first().push(current@)
                            } else {
                                old(self)@.queue.drop_first()
                            });
                        }
                    },
                }
                Some(LoadRequest { track, interrupt: interrupt || !self.gapless_playback })
            },
            None => None,
        }
    }

    /// Goes back to the track played before, or to the start of the current
    /// track when nothing was played before. Returns the track to load, if
    /// there is one.
    pub fn play_prev(&mut self) -> (request: Option<LoadRequest>)
        ensures
            final(self)@ == old(self)@.after_play_prev(),
            request_view(request) == old(self)@.prev_request(),
            final(self)@.wf(),
    {
        proof {
            use_type_invariant(&self.playback);
        }
        match self.history.pop() {
            Some(previous) => {
                assert(track_views(self.history@) =~= old(self)@.history.drop_last());
                assert(old(self)@.history.last() == previous@);
                match &self.playback.state.current_track {
                    Some(current) => {
                        self.queue.push_front(current.clone());
                        assert(track_views(self.queue@) =~= seq![current@] + old(self)@.queue);
                    },
                    None => {},
                }
                Some(LoadRequest { track: previous, interrupt: true })
            },
            None => {
                match &self.playback.state.current_track {
                    Some(current) => Some(LoadRequest { track: current.clone(), interrupt: true }),
                    None => None,
                }
            },
        }
    }

    /// Cycles the repeat mode: off, one, all, off. Returns the new mode.
    pub fn toggle_repeat(&mut self) -> (repeat: Repeat)
        ensures
            final(self)@ == old(self)@.after_toggle_repeat(),
            repeat == old(self)@.state.repeat.successor(),
            final(self)@.wf(),
    {
        proof {
            use_type_invariant(&self.playback);
        }
        self.playback.state.repeat = self.playback.state.repeat.next();
        self.playback.state.repeat
    }

    /// Sets the repeat mode.
    pub fn set_repeat(&mut self, repeat: Repeat)
        ensures
            final(self)@ == (MediaSystemView {
                state: MediaStateView { repeat, ..old(self)@.state },
                ..old(self)@
            }),
            final(self)@.wf(),
    {
        proof {
            use_type_invariant(&self.playback);
        }
        self.playback.state.repeat = repeat;
    }

    /// Sets the shuffle flag and leaves the queue as it is.
    pub fn set_shuffle(&mut self, shuffle: bool)
        ensures
            final(self)@ == (MediaSystemView {
                state: MediaStateView { shuffle, ..old(self)@.state },
                ..old(self)@
            }),
            final(self)@.wf(),
    {
        proof {
            use_type_invariant(&self.playback);
        }
        self.playback.state.shuffle = shuffle;
    }

    /// Adds `elapsed` to the progress of the current track, or, when the sink
    /// has run empty, ends the track.
    pub fn update_progress(&mut self, elapsed: Duration, sink_empty: bool)
        ensures
            final(self)@ == old(self)@.after_update_progress(elapsed@, sink_empty),
            final(self)@.wf(),
    {
        proof {
            use_type_invariant(&self.playback);
        }
        if sink_empty {
            self.playback.state.playing = false;
            self.playback.state.current_track_progress = None;
            if self.playback.state.repeat != Repeat::One {
                self.playback.state.current_track = None;
            }
        } else {
            match self.playback.state.current_track_progress {
                Some(progress) => {
                    self.playback.state.current_track_progress = Some(progress.saturating_add(&elapsed));
                },
                None => {},
            }
        }
    }

    /// What is left to play of the current track.
    pub fn time_remaining(&self) -> (remaining: Duration)
        ensures
            remaining@ == self@.state.time_remaining(),
    {
        match (&self.playback.state.current_track, &self.playback.state.current_track_progress) {
            (Some(track), Some(progress)) => track.length.saturating_sub(progress),
            _ => Duration::zero(),
        }
    }

    /// Whether the queue holds no track.
    pub fn queue_empty(&self) -> (empty: bool)
        ensures
            empty == (self@.queue.len() == 0),
    {
        self.queue.len() == 0
    }

    /// Empties the queue.
    pub fn clear_queue(&mut self)
        ensures
            final(self)@ == (MediaSystemView { queue: Seq::empty(), ..old(self)@ }),
            final(self)@.wf(),
    {
        proof {
            use_type_invariant(&self.playback);
        }
        self.queue.clear();
        assert(track_views(self.queue@) =~= Seq::empty());
    }

    /// Whether tracks follow each other without a gap.
    pub fn gapless_playback(&self) -> (gapless: bool)
        ensures
            gapless == self@.gapless_playback,
    {
        self.gapless_playback
    }

    /// Whether playback is to move on to the next track by itself.
    pub fn auto_advance_due(&self, sink_empty: bool) -> (due: bool)
        ensures
            due == self@.auto_advance_due(sink_empty),
    {
        if self.queue.len() == 0 {
            false
        } else if self.gapless_playback {
            let threshold = Duration::from_millis(GAPLESS_THRESHOLD_MILLIS);
            self.time_remaining().is_shorter_than(&threshold)
        } else {
            sink_empty
        }
    }

    /// Replaces the queue by the tracks of `queueable` and starts playing
    /// them. Returns the track to load, if there is one.
    ///
    /// With shuffle on, the tracks of an artist, an album or a playlist are
    /// shuffled before the first one is taken; of a track list the first
    /// track is taken as it is and only the rest is shuffled.
    pub fn enqueue_and_play(&mut self, queueable: &Queueable) -> (request: Option<LoadRequest>)
        ensures
            old(self)@.enqueued_and_played(queueable@, final(self)@, request_view(request)),
            final(self)@.wf(),
    {
        proof {
            use_type_invariant(&self.playback);
        }
        let first_as_given = match queueable {
            Queueable::Empty => {
                return None;
            },
            Queueable::TrackList(_) => true,
            _ => false,
        };
        let tracks = queueable.get_tracks();
        let ghost views = queueable.tracks();
        self.queue.clear();
        self.ordered_queue.clear();
        let mut i: usize = 0;
        assert(track_views(self.queue@) =~= views.subrange(0, 0));
        assert(track_views(self.ordered_queue@) =~= views.subrange(0, 0));
        while i < tracks.len()
            invariant
                i <= tracks.len(),
                views == track_views(tracks@),
                track_views(self.queue@) == views.subrange(0, i as int),
                track_views(self.ordered_queue@) == views.subrange(0, i as int),
                self.playback == old(self).playback,
                self.history == old(self).history,
                self.gapless_playback == old(self).gapless_playback,
            decreases tracks.len() - i,
        {
            let ghost queued = track_views(self.queue@);
            self.queue.push_back(tracks[i].clone());
            self.ordered_queue.push_back(tracks[i].clone());
            assert(views[i as int] == tracks@[i as int]@);
            assert(track_views(self.queue@) =~= queued.push(views[i as int]));
            assert(track_views(self.ordered_queue@) =~= queued.push(views[i as int]));
            i += 1;
            assert(queued.push(views[i - 1]) =~= views.subrange(0, i as int));
        }
        assert(views.subrange(0, i as int) =~= views);
        let shuffle = self.playback.state.shuffle;
        if shuffle && !first_as_given {
            shuffle_queue(&mut self.queue);
        }
        let ghost full = track_views(self.queue@);
        let head = self.queue.pop_front();
        let ghost rest = track_views(self.queue@);
        proof {
            broadcast use vstd::seq_lib::to_multiset_len;

            assert(full.to_multiset().len() == views.to_multiset().len());
            if full.len() > 0 {
                assert(rest =~= full.drop_first());
                assert(seq![full[0]] + rest =~= full);
                assert(full[0] == head.unwrap()@);
            } else {
                assert(rest =~= full);
            }
        }
        if shuffle && first_as_given {
            shuffle_queue(&mut self.queue);
            proof {
                if full.len() > 0 {
                    let h = seq![full[0]];
                    vstd::seq_lib::lemma_multiset_commutative(h, rest);
                    vstd::seq_lib::lemma_multiset_commutative(h, track_views(self.queue@));
                }
                broadcast use vstd::seq_lib::to_multiset_len;

                assert(track_views(self.queue@).to_multiset().len() == rest.to_multiset().len());
            }
        }
        match head {
            Some(track) => Some(LoadRequest { track, interrupt: true }),
            None => None,
        }
    }

    /// Turns shuffle on or off. Returns the new setting.
    ///
    /// Turning it on puts the queue into a random order. Turning it off
    /// restores the unshuffled order, turned so that playback goes on right
    /// after the current track.
    pub fn toggle_shuffle(&mut self) -> (shuffle: bool)
        ensures
            shuffle == !old(self)@.state.shuffle,
            shuffle ==> old(self)@.shuffled_on(final(self)@),
            !shuffle ==> final(self)@ == old(self)@.after_shuffle_off(),
            final(self)@.wf(),
    {
        proof {
            use_type_invariant(&self.playback);
        }
        let shuffle = !self.playback.state.shuffle;
        self.playback.state.shuffle = shuffle;
        if shuffle {
            shuffle_queue(&mut self.queue);
        } else {
            let len = self.ordered_queue.len();
            let start = match &self.playback.state.current_track {
                Some(current) => {
                    let index = position_of(&self.ordered_queue, current);
                    if index < len {
                        index + 1
                    } else {
                        0
                    }
                },
                None => 0,
            };
            let mut queue: VecDeque<Track> = VecDeque::new();
            assert(track_views(queue@) =~= Seq::empty());
            extend_with_copies(&mut queue, &self.ordered_queue, start, len);
            extend_with_copies(&mut queue, &self.ordered_queue, 0, start);
            self.queue = queue;
            proof {
                let ordered = track_views(self.ordered_queue@);
                assert(track_views(self.queue@) =~= rotated(ordered, start as int));
                assert(rotated(ordered, 0) =~= ordered);
            }
        }
        shuffle
    }

    /// One round of the playback clock: while playback runs, `elapsed` is
    /// added to the progress or the ended track is cleared; then, if it is
    /// time to, playback moves on to the next track. Returns the track to
    /// load, if there is one.
    pub fn tick(&mut self, elapsed: Duration, sink_empty: bool) -> (request: Option<LoadRequest>)
        ensures
            final(self)@ == old(self)@.after_tick(elapsed@, sink_empty),
            request_view(request) == old(self)@.tick_request(elapsed@, sink_empty),
            final(self)@.wf(),
    {
        if self.playback.state.playing {
            self.update_progress(elapsed, sink_empty);
        }
        if self.auto_advance_due(sink_empty) {
            self.play_next(false)
        } else {
            proof {
                use_type_invariant(&self.playback);
            }
            None
        }
    }

    /// Carries out a command, given whether the sink is empty. Returns what
    /// the caller has to do with the sink.
    pub fn apply(&mut self, command: PlaybackCommand, sink_empty: bool) -> (action: SinkAction)
        ensures
            old(self)@.applied(command@, sink_empty, final(self)@, action@),
            final(self)@.wf(),
    {
        proof {
            use_type_invariant(&self.playback);
        }
        match command {
            PlaybackCommand::Play => if self.play() {
                SinkAction::Resume
            } else {
                SinkAction::Nothing
            },
            PlaybackCommand::Pause => if self.pause() {
                SinkAction::Pause
            } else {
                SinkAction::Nothing
            },
            PlaybackCommand::Stop => {
                let halt = self.stop(sink_empty);
                self.clear_queue();
                if halt {
                    SinkAction::Halt
                } else {
                    SinkAction::Nothing
                }
            },
            PlaybackCommand::TogglePlay => match self.toggle_play() {
                PlaybackStatus::Paused => SinkAction::Pause,
                PlaybackStatus::Playing => SinkAction::Resume,
                PlaybackStatus::Stopped => SinkAction::Nothing,
            },
            PlaybackCommand::ToggleShuffle => {
                self.toggle_shuffle();
                SinkAction::Nothing
            },
            PlaybackCommand::ToggleRepeat => {
                self.toggle_repeat();
                SinkAction::Nothing
            },
            PlaybackCommand::EnqueueAndPlay(queueable) => {
                let request = self.enqueue_and_play(&queueable);
                let ghost asked = request_view(request);
                let action = match request {
                    Some(request) => SinkAction::Load(request),
                    None => SinkAction::Nothing,
                };
                assert(old(self)@.enqueued_and_played(queueable@, self@, asked) && action@
                    == load_action(asked));
                action
            },
            PlaybackCommand::PlayTrack(track) => SinkAction::Load(
                LoadRequest { track, interrupt: true },
            ),
            PlaybackCommand::NextTrack => match self.play_next(true) {
                Some(request) => SinkAction::Load(request),
                None => SinkAction::Nothing,
            },
            PlaybackCommand::PrevTrack => match self.play_prev() {
                Some(request) => SinkAction::Load(request),
                None => SinkAction::Nothing,
            },
        }
    }
}

} // verus!
