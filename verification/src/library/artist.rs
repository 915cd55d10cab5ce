//! Artists: named groups of albums.

use crate::library::album::{album_views, Album, AlbumView};
use vstd::prelude::*;

verus! {

/// An artist with the albums of the library that are theirs.
///
/// By convention the first album is a pseudo-album named "All Albums" that
/// holds every track by the artist.
#[derive(Debug)]
pub struct Artist {
    /// Name of the artist.
    pub name: String,
    /// All of the albums in the library by this artist.
    pub albums: Vec<Album>,
}

/// What an [`Artist`] holds, as plain values.
pub struct ArtistView {
    pub name: Seq<char>,
    pub albums: Seq<AlbumView>,
}

impl View for Artist {
    type V = ArtistView;

    open spec fn view(&self) -> ArtistView {
        ArtistView { name: self.name@, albums: album_views(self.albums@) }
    }
}

impl DeepView for Artist {
    type V = ArtistView;

    open spec fn deep_view(&self) -> ArtistView {
        self@
    }
}

impl ArtistView {
    /// Whether `index` is the place of the first album called `name`.
    pub open spec fn is_first_album_named(self, name: Seq<char>, index: int) -> bool {
        &&& 0 <= index < self.albums.len()
        &&& self.albums[index].name == name
        &&& forall|j: int| 0 <= j < index ==> self.albums[j].name != name
    }

    /// Whether an album called `name` is among the artist's albums.
    pub open spec fn has_album_named(self, name: Seq<char>) -> bool {
        exists|j: int| 0 <= j < self.albums.len() && #[trigger] self.albums[j].name == name
    }
}

impl Default for Artist {
    /// An artist without a name or albums.
    fn default() -> (artist: Self)
        ensures
            artist@ == (ArtistView { name: Seq::empty(), albums: Seq::empty() }),
    {
        let artist = Artist { name: String::new(), albums: Vec::new() };
        assert(album_views(artist.albums@) =~= Seq::empty());
        artist
    }
}

impl Clone for Artist {
    fn clone(&self) -> (copy: Self)
        ensures
            copy@ == self@,
    {
        let albums = self.albums.clone();
        assert(album_views(albums@) =~= album_views(self.albums@));
        Artist { name: self.name.clone(), albums }
    }
}

impl Artist {
    /// The same artist under another name.
    pub fn name(self, name: &str) -> (artist: Self)
        ensures
            artist@ == (ArtistView { name: name@, ..self@ }),
    {
        let mut artist = self;
        artist.name = name.to_owned();
        artist
    }

    /// The place of the first album called `name` among the artist's albums,
    /// if there is one.
    pub fn get_album_index(&self, name: &str) -> (index: Option<usize>)
        ensures
            match index {
                Some(i) => self@.is_first_album_named(name@, i as int),
                None => !self@.has_album_named(name@),
            },
    {
        let wanted = name.to_owned();
        let mut i: usize = 0;
        while i < self.albums.len()
            invariant
                i <= self.albums.len(),
                wanted@ == name@,
                forall|j: int| 0 <= j < i ==> self@.albums[j].name != name@,
            decreases self.albums.len() - i,
        {
            assert(self@.albums[i as int] == self.albums[i as int]@);
            if self.albums[i].name == wanted {
                return Some(i);
            }
            i += 1;
        }
        None
    }
}

} // verus!
