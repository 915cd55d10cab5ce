//! The screen that lists the artists, the albums of the selected artist and
//! the tracks of the selected album.

use crate::library::album::{album_views, Album, AlbumView};
use crate::library::artist::{Artist, ArtistView};
use crate::library::listing::{artist_views, listed_albums, listed_artists};
use crate::library::track::{track_views, Track, TrackView};
use crate::library::Library;
use crate::media_system::{Queueable, QueueableView};
use crate::ui::{
    choose_tracks, chosen_tracks, place_of_selection, selection_after_move, selection_within,
    MovementDirection, UIList,
};
use vstd::prelude::*;

verus! {

/// The panels of the main screen.
#[derive(Clone, Copy, Debug, PartialEq, Eq, Structural)]
pub enum Panel {
    Artists,
    Albums,
    Tracks,
}

impl Panel {
    /// The panel that has the focus after a movement: a step leads to the
    /// next or the previous panel, going round at the ends; a jump leaves
    /// the focus where it is.
    pub open spec fn switched(self, direction: MovementDirection) -> Panel {
        match direction {
            MovementDirection::Next => match self {
                Panel::Artists => Panel::Albums,
                Panel::Albums => Panel::Tracks,
                Panel::Tracks => Panel::Artists,
            },
            MovementDirection::Prev => match self {
                Panel::Artists => Panel::Tracks,
                Panel::Albums => Panel::Artists,
                Panel::Tracks => Panel::Albums,
            },
            _ => self,
        }
    }

    /// The panel that has the focus after a movement.
    pub fn switch(self, direction: MovementDirection) -> (panel: Panel)
        ensures
            panel == self.switched(direction),
    {
        match direction {
            MovementDirection::Next => match self {
                Panel::Artists => Panel::Albums,
                Panel::Albums => Panel::Tracks,
                Panel::Tracks => Panel::Artists,
            },
            MovementDirection::Prev => match self {
                Panel::Artists => Panel::Tracks,
                Panel::Albums => Panel::Artists,
                Panel::Tracks => Panel::Albums,
            },
            _ => self,
        }
    }
}

/// The lists of the main screen and the panel that has the focus.
#[derive(Debug)]
pub struct MainScreen {
    /// The list of artists.
    pub artist_list: UIList<Artist>,
    /// The list of albums.
    pub album_list: UIList<Album>,
    /// The list of tracks.
    pub track_list: UIList<Track>,
    /// The panel that has the focus.
    pub panel: Panel,
}

/// A [`MainScreen`] as plain values.
pub struct MainScreenView {
    pub artists: Seq<ArtistView>,
    pub artist_selected: Option<usize>,
    pub albums: Seq<AlbumView>,
    pub album_selected: Option<usize>,
    pub tracks: Seq<TrackView>,
    pub track_selected: Option<usize>,
    pub panel: Panel,
}

impl View for MainScreen {
    type V = MainScreenView;

    open spec fn view(&self) -> MainScreenView {
        MainScreenView {
            artists: artist_views(self.artist_list.list@),
            artist_selected: self.artist_list.selected,
            albums: album_views(self.album_list.list@),
            album_selected: self.album_list.selected,
            tracks: track_views(self.track_list.list@),
            track_selected: self.track_list.selected,
            panel: self.panel,
        }
    }
}

impl MainScreenView {
    /// The screen as it is first shown for `tracks`: the artists and albums
    /// that the tracks are listed under, the tracks themselves, the first
    /// entry of each list selected and the focus on the artists.
    pub open spec fn initial(tracks: Seq<TrackView>) -> MainScreenView {
        MainScreenView {
            artists: listed_artists(tracks),
            artist_selected: Some(0usize),
            albums: listed_albums(tracks),
            album_selected: Some(0usize),
            tracks,
            track_selected: Some(0usize),
            panel: Panel::Artists,
        }
    }

    /// The screen after the focus has moved.
    pub open spec fn after_switch_panel(self, direction: MovementDirection) -> MainScreenView {
        MainScreenView { panel: self.panel.switched(direction), ..self }
    }

    /// The screen after the selection of the list that has the focus has
    /// moved.
    pub open spec fn after_switch_item(self, direction: MovementDirection) -> MainScreenView {
        match self.panel {
            Panel::Artists => MainScreenView {
                artist_selected: selection_after_move(
                    self.artist_selected,
                    self.artists.len(),
                    direction,
                ),
                ..self
            },
            Panel::Albums => MainScreenView {
                album_selected: selection_after_move(
                    self.album_selected,
                    self.albums.len(),
                    direction,
                ),
                ..self
            },
            Panel::Tracks => MainScreenView {
                track_selected: selection_after_move(
                    self.track_selected,
                    self.tracks.len(),
                    direction,
                ),
                ..self
            },
        }
    }

    /// The albums of the selected artist; none where no artist stands at
    /// the selected place.
    pub open spec fn albums_of_selected(self) -> Seq<AlbumView> {
        let place = place_of_selection(self.artist_selected) as int;
        if place < self.artists.len() {
            self.artists[place].albums
        } else {
            Seq::empty()
        }
    }

    /// The screen after the lists have been brought up to date: the albums
    /// are those of the selected artist and the tracks those of the selected
    /// album, with each selection kept within its list.
    pub open spec fn after_update_lists(self) -> MainScreenView {
        let albums = self.albums_of_selected();
        let album_selected = selection_within(self.album_selected, albums.len());
        let place = place_of_selection(album_selected) as int;
        let tracks = if place < albums.len() {
            albums[place].tracks
        } else {
            Seq::empty()
        };
        MainScreenView {
            albums,
            album_selected,
            tracks,
            track_selected: selection_within(self.track_selected, tracks.len()),
            ..self
        }
    }

    /// What is put on the queue when the selection is chosen: the selected
    /// artist, the selected album, or tracks of the track list, depending on
    /// the panel that has the focus; nothing where the selection stands
    /// behind the end of its list.
    pub open spec fn selected(self, tracks_current_only: bool) -> QueueableView {
        match self.panel {
            Panel::Artists => {
                let place = place_of_selection(self.artist_selected) as int;
                if place < self.artists.len() {
                    QueueableView::Artist(self.artists[place])
                } else {
                    QueueableView::Empty
                }
            },
            Panel::Albums => {
                let place = place_of_selection(self.album_selected) as int;
                if place < self.albums.len() {
                    QueueableView::Album(self.albums[place])
                } else {
                    QueueableView::Empty
                }
            },
            Panel::Tracks => {
                let place = place_of_selection(self.track_selected) as int;
                if place < self.tracks.len() {
                    QueueableView::TrackList(
                        chosen_tracks(self.tracks, place, tracks_current_only),
                    )
                } else {
                    QueueableView::Empty
                }
            },
        }
    }
}

impl MainScreen {
    /// The screen as it is first shown for `library`.
    pub fn new(library: &Library) -> (screen: Self)
        ensures
            screen@ == MainScreenView::initial(library@.tracks.tracks),
    {
        let playlist = library.playlist();
        let (artists, albums) = playlist.get_artists_albums();
        let tracks = playlist.tracks.clone();
        assert(track_views(tracks@) =~= track_views(playlist.tracks@));
        MainScreen {
            artist_list: UIList::new(artists),
            album_list: UIList::new(albums),
            track_list: UIList::new(tracks),
            panel: Panel::Artists,
        }
    }

    /// Moves the focus to another panel.
    pub fn switch_panel(&mut self, direction: MovementDirection)
        ensures
            final(self)@ == old(self)@.after_switch_panel(direction),
    {
        self.panel = self.panel.switch(direction);
    }

    /// Moves the selection of the list that has the focus.
    pub fn switch_item(&mut self, direction: MovementDirection)
        ensures
            final(self)@ == old(self)@.after_switch_item(direction),
    {
        match self.panel {
            Panel::Artists => self.artist_list.switch_item(direction),
            Panel::Albums => self.album_list.switch_item(direction),
            Panel::Tracks => self.track_list.switch_item(direction),
        }
    }

    /// Brings the albums and the tracks up to date with the selection.
    pub fn update_lists(&mut self)
        ensures
            final(self)@ == old(self)@.after_update_lists(),
    {
        let artist_place = self.artist_list.selected_place();
        let albums = if artist_place < self.artist_list.list.len() {
            assert(self@.artists[artist_place as int] == self.artist_list.list@[artist_place as int]@);
            let albums = self.artist_list.list[artist_place].albums.clone();
            assert(album_views(albums@) =~= album_views(
                self.artist_list.list@[artist_place as int].albums@,
            ));
            albums
        } else {
            let albums: Vec<Album> = Vec::new();
            assert(album_views(albums@) =~= Seq::empty());
            albums
        };
        self.album_list.replace(albums);
        let album_place = self.album_list.selected_place();
        let tracks = if album_place < self.album_list.list.len() {
            assert(album_views(self.album_list.list@)[album_place as int]
                == self.album_list.list@[album_place as int]@);
            let tracks = self.album_list.list[album_place].tracks.clone();
            assert(track_views(tracks@) =~= track_views(
                self.album_list.list@[album_place as int].tracks@,
            ));
            tracks
        } else {
            let tracks: Vec<Track> = Vec::new();
            assert(track_views(tracks@) =~= Seq::empty());
            tracks
        };
        self.track_list.replace(tracks);
    }

    /// What is put on the queue when the selection is chosen.
    pub fn get_selected(&self, tracks_current_only: bool) -> (queueable: Queueable)
        ensures
            queueable@ == self@.selected(tracks_current_only),
    {
        match self.panel {
            Panel::Artists => {
                let place = self.artist_list.selected_place();
                if place < self.artist_list.list.len() {
                    assert(self@.artists[place as int] == self.artist_list.list@[place as int]@);
                    Queueable::Artist(self.artist_list.list[place].clone())
                } else {
                    Queueable::Empty
                }
            },
            Panel::Albums => {
                let place = self.album_list.selected_place();
                if place < self.album_list.list.len() {
                    assert(self@.albums[place as int] == self.album_list.list@[place as int]@);
                    Queueable::Album(self.album_list.list[place].clone())
                } else {
                    Queueable::Empty
                }
            },
            Panel::Tracks => {
                let place = self.track_list.selected_place();
                if place < self.track_list.list.len() {
                    Queueable::TrackList(
                        choose_tracks(&self.track_list.list, place, tracks_current_only),
                    )
                } else {
                    Queueable::Empty
                }
            },
        }
    }
}

} // verus!
