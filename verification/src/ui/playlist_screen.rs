//! The screen that lists the playlists and the tracks of the selected one.

use crate::library::track::{track_views, Track, TrackView};
use crate::media_system::{Queueable, QueueableView};
use crate::playlist::{Playlist, PlaylistView};
use crate::ui::{
    choose_tracks, chosen_tracks, place_of_selection, selection_after_move, selection_within,
    MovementDirection, UIList,
};
use vstd::prelude::*;

verus! {

/// The panels of the playlist screen.
#[derive(Clone, Copy, Debug, PartialEq, Eq, Structural)]
pub enum Panel {
    Playlists,
    Tracks,
}

impl Panel {
    /// The panel that has the focus after a movement: a step in either
    /// direction leads to the other panel, a jump leaves the focus where it
    /// is.
    pub open spec fn switched(self, direction: MovementDirection) -> Panel {
        match direction {
            MovementDirection::Prev | MovementDirection::Next => match self {
                Panel::Tracks => Panel::Playlists,
                Panel::Playlists => Panel::Tracks,
            },
            _ => self,
        }
    }

    /// The panel that has the focus after a movement.
    pub fn switch(self, direction: MovementDirection) -> (panel: Panel)
        ensures
            panel == self.switched(direction),
    {
        match direction {
            MovementDirection::Prev | MovementDirection::Next => match self {
                Panel::Tracks => Panel::Playlists,
                Panel::Playlists => Panel::Tracks,
            },
            _ => self,
        }
    }
}

/// The views of a sequence of playlists, in the same order.
pub open spec fn playlist_views(playlists: Seq<Playlist>) -> Seq<PlaylistView> {
    playlists.map_values(|p: Playlist| p@)
}

/// The lists of the playlist screen and the panel that has the focus.
#[derive(Debug)]
pub struct PlaylistScreen {
    /// The list of tracks.
    pub track_list: UIList<Track>,
    /// The list of playlists.
    pub playlist_list: UIList<Playlist>,
    /// The panel that has the focus.
    pub panel: Panel,
}

/// A [`PlaylistScreen`] as plain values.
pub struct PlaylistScreenView {
    pub tracks: Seq<TrackView>,
    pub track_selected: Option<usize>,
    pub playlists: Seq<PlaylistView>,
    pub playlist_selected: Option<usize>,
    pub panel: Panel,
}

impl View for PlaylistScreen {
    type V = PlaylistScreenView;

    open spec fn view(&self) -> PlaylistScreenView {
        PlaylistScreenView {
            tracks: track_views(self.track_list.list@),
            track_selected: self.track_list.selected,
            playlists: playlist_views(self.playlist_list.list@),
            playlist_selected: self.playlist_list.selected,
            panel: self.panel,
        }
    }
}

impl PlaylistScreenView {
    /// The screen as it is first shown for `playlists`: the tracks are
    /// those of the first playlist, the first entry of each list is
    /// selected and the focus is on the playlists.
    pub open spec fn initial(playlists: Seq<PlaylistView>) -> PlaylistScreenView {
        PlaylistScreenView {
            tracks: if playlists.len() > 0 {
                playlists[0].tracks
            } else {
                Seq::empty()
            },
            track_selected: Some(0usize),
            playlists,
            playlist_selected: Some(0usize),
            panel: Panel::Playlists,
        }
    }

    /// The screen after the focus has moved.
    pub open spec fn after_switch_panel(self, direction: MovementDirection) -> PlaylistScreenView {
        PlaylistScreenView { panel: self.panel.switched(direction), ..self }
    }

    /// The screen after the selection of the list that has the focus has
    /// moved.
    pub open spec fn after_switch_item(self, direction: MovementDirection) -> PlaylistScreenView {
        match self.panel {
            Panel::Tracks => PlaylistScreenView {
                track_selected: selection_after_move(
                    self.track_selected,
                    self.tracks.len(),
                    direction,
                ),
                ..self
            },
            Panel::Playlists => PlaylistScreenView {
                playlist_selected: selection_after_move(
                    self.playlist_selected,
                    self.playlists.len(),
                    direction,
                ),
                ..self
            },
        }
    }

    /// The tracks of the selected playlist; none where no playlist stands
    /// at the selected place.
    pub open spec fn tracks_of_selected(self) -> Seq<TrackView> {
        let place = place_of_selection(self.playlist_selected) as int;
        if place < self.playlists.len() {
            self.playlists[place].tracks
        } else {
            Seq::empty()
        }
    }

    /// The screen after the tracks have been brought up to date with the
    /// selected playlist.
    pub open spec fn after_update_lists(self) -> PlaylistScreenView {
        let tracks = self.tracks_of_selected();
        PlaylistScreenView {
            tracks,
            track_selected: selection_within(self.track_selected, tracks.len()),
            ..self
        }
    }

    /// The screen with one more playlist at the end of its list.
    pub open spec fn with_playlist(self, playlist: PlaylistView) -> PlaylistScreenView {
        PlaylistScreenView { playlists: self.playlists.push(playlist), ..self }
    }

    /// What is put on the queue when the selection is chosen: the selected
    /// playlist or tracks of the track list, depending on the panel that
    /// has the focus; nothing where the selection stands behind the end of
    /// its list.
    pub open spec fn selected(self, tracks_current_only: bool) -> QueueableView {
        match self.panel {
            Panel::Tracks => {
                let place = place_of_selection(self.track_selected) as int;
                if place < self.tracks.len() {
                    QueueableView::TrackList(
                        chosen_tracks(self.tracks, place, tracks_current_only),
                    )
                } else {
                    QueueableView::Empty
                }
            },
            Panel::Playlists => {
                let place = place_of_selection(self.playlist_selected) as int;
                if place < self.playlists.len() {
                    QueueableView::Playlist(self.playlists[place])
                } else {
                    QueueableView::Empty
                }
            },
        }
    }
}

impl PlaylistScreen {
    /// The screen as it is first shown for `playlists`.
    pub fn new(playlists: &Vec<Playlist>) -> (screen: Self)
        ensures
            screen@ == PlaylistScreenView::initial(playlist_views(playlists@)),
    {
        let list = playlists.clone();
        assert(playlist_views(list@) =~= playlist_views(playlists@));
        let tracks = if playlists.len() > 0 {
            assert(playlist_views(playlists@)[0] == playlists@[0]@);
            let tracks = playlists[0].tracks.clone();
            assert(track_views(tracks@) =~= track_views(playlists@[0].tracks@));
            tracks
        } else {
            let tracks: Vec<Track> = Vec::new();
            assert(track_views(tracks@) =~= Seq::empty());
            tracks
        };
        PlaylistScreen {
            track_list: UIList::new(tracks),
            playlist_list: UIList::new(list),
            panel: Panel::Playlists,
        }
    }

    /// Moves the focus to the other panel.
    pub fn switch_panel(&mut self, direction: MovementDirection)
        ensures
            final(self)@ == old(self)@.after_switch_panel(direction),
    {
        self.panel = self.panel.switch(direction);
    }

    /// Moves the selection of the list that has the focus.
    pub fn switch_item(&mut self, direction: MovementDirection)
        ensures
            final(self)@ == old(self)@.after_switch_item(direction),
    {
        match self.panel {
            Panel::Tracks => self.track_list.switch_item(direction),
            Panel::Playlists => self.playlist_list.switch_item(direction),
        }
    }

    /// Brings the tracks up to date with the selected playlist.
    pub fn update_lists(&mut self)
        ensures
            final(self)@ == old(self)@.after_update_lists(),
    {
        let place = self.playlist_list.selected_place();
        let tracks = if place < self.playlist_list.list.len() {
            assert(self@.playlists[place as int] == self.playlist_list.list@[place as int]@);
            let tracks = self.playlist_list.list[place].tracks.clone();
            assert(track_views(tracks@) =~= track_views(
                self.playlist_list.list@[place as int].tracks@,
            ));
            tracks
        } else {
            let tracks: Vec<Track> = Vec::new();
            assert(track_views(tracks@) =~= Seq::empty());
            tracks
        };
        self.track_list.replace(tracks);
    }

    /// Adds a playlist to the end of the list of playlists.
    pub fn add_playlist(&mut self, playlist: &Playlist)
        ensures
            final(self)@ == old(self)@.with_playlist(playlist@),
    {
        let ghost before = playlist_views(self.playlist_list.list@);
        self.playlist_list.list.push(playlist.clone());
        assert(playlist_views(self.playlist_list.list@) =~= before.push(playlist@));
    }

    /// What is put on the queue when the selection is chosen.
    pub fn get_selected(&self, tracks_current_only: bool) -> (queueable: Queueable)
        ensures
            queueable@ == self@.selected(tracks_current_only),
    {
        match self.panel {
            Panel::Tracks => {
                let place = self.track_list.selected_place();
                if place < self.track_list.list.len() {
                    Queueable::TrackList(
                        choose_tracks(&self.track_list.list, place, tracks_current_only),
                    )
                } else {
                    Queueable::Empty
                }
            },
            Panel::Playlists => {
                let place = self.playlist_list.selected_place();
                if place < self.playlist_list.list.len() {
                    assert(self@.playlists[place as int] == self.playlist_list.list@[place as int]@);
                    Queueable::Playlist(self.playlist_list.list[place].clone())
                } else {
                    Queueable::Empty
                }
            },
        }
    }
}

} // verus!
