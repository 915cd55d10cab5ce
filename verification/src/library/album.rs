//! Albums: named groups of tracks.

use crate::library::track::{track_views, Track, TrackView};
use vstd::prelude::*;

verus! {

/// A named group of tracks, in the order in which they are stored.
#[derive(Debug)]
pub struct Album {
    /// Name of the album.
    pub name: String,
    /// Year from metadata, if present in tracks.
    pub year: Option<u32>,
    /// Tracks in the album.
    pub tracks: Vec<Track>,
}

/// What an [`Album`] holds, as plain values.
pub struct AlbumView {
    pub name: Seq<char>,
    pub year: Option<u32>,
    pub tracks: Seq<TrackView>,
}

impl View for Album {
    type V = AlbumView;

    open spec fn view(&self) -> AlbumView {
        AlbumView { name: self.name@, year: self.year, tracks: track_views(self.tracks@) }
    }
}

impl DeepView for Album {
    type V = AlbumView;

    open spec fn deep_view(&self) -> AlbumView {
        self@
    }
}

/// The views of a sequence of albums, in the same order.
pub open spec fn album_views(albums: Seq<Album>) -> Seq<AlbumView> {
    albums.map_values(|a: Album| a@)
}

impl Default for Album {
    /// An album without a name, a year or tracks.
    fn default() -> (album: Self)
        ensures
            album@ == (AlbumView { name: Seq::empty(), year: None, tracks: Seq::empty() }),
    {
        let album = Album { name: String::new(), year: None, tracks: Vec::new() };
        assert(track_views(album.tracks@) =~= Seq::empty());
        album
    }
}

impl Clone for Album {
    fn clone(&self) -> (copy: Self)
        ensures
            copy@ == self@,
    {
        let tracks = self.tracks.clone();
        assert(track_views(tracks@) =~= track_views(self.tracks@));
        Album { name: self.name.clone(), year: self.year, tracks }
    }
}

impl Album {
    /// The same album under another name.
    pub fn name(self, name: &str) -> (album: Self)
        ensures
            album@ == (AlbumView { name: name@, ..self@ }),
    {
        let mut album = self;
        album.name = name.to_owned();
        album
    }

    /// The same album with another year.
    pub fn year(self, year: Option<u32>) -> (album: Self)
        ensures
            album@ == (AlbumView { year, ..self@ }),
    {
        let mut album = self;
        album.year = year;
        album
    }
}

} // verus!
