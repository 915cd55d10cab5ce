//! The music library: the tracks that are known, and the files they came
//! from.

pub mod album;
pub mod artist;
pub mod listing;
pub mod order;
pub mod track;

use crate::library::album::{Album, AlbumView};
use crate::library::artist::{Artist, ArtistView};
use crate::library::track::{track_views, Track, TrackView};
use crate::playlist::{text_views, Playlist, PlaylistError, PlaylistView};
use crate::time::Duration;
use crate::traits::{Load, Save};
use vstd::prelude::*;
use vstd::string::StringExecFns;

verus! {

/// All tracks that are known, as one playlist, together with the paths of
/// the files that were looked at.
#[derive(Debug)]
pub struct Library {
    pub tracks: Playlist,
    known_paths: Vec<String>,
}

/// What a [`Library`] holds, as plain values.
pub struct LibraryView {
    pub tracks: PlaylistView,
    pub known_paths: Set<Seq<char>>,
}

impl View for Library {
    type V = LibraryView;

    closed spec fn view(&self) -> LibraryView {
        LibraryView { tracks: self.tracks@, known_paths: text_views(self.known_paths@).to_set() }
    }
}

/// The paths of the files of `tracks`.
pub open spec fn file_paths(tracks: Seq<TrackView>) -> Set<Seq<char>> {
    tracks.map_values(|t: TrackView| t.file_path).to_set()
}

/// Whether files with the extension `extension` are read as audio.
pub open spec fn supported_extension(extension: Seq<char>) -> bool {
    ||| extension == "mp3"@
    ||| extension == "flac"@
    ||| extension == "aiff"@
    ||| extension == "m4a"@
    ||| extension == "ogg"@
    ||| extension == "opus"@
    ||| extension == "aac"@
    ||| extension == "wav"@
}

/// Whether files with the extension `extension` are read as audio.
pub fn is_supported_extension(extension: &str) -> (supported: bool)
    ensures
        supported == supported_extension(extension@),
{
    let extension = String::from_str(extension);
    extension == String::from_str("mp3") || extension == String::from_str("flac") || extension
        == String::from_str("aiff") || extension == String::from_str("m4a") || extension
        == String::from_str("ogg") || extension == String::from_str("opus") || extension
        == String::from_str("aac") || extension == String::from_str("wav")
}

/// What the tags of an audio file say, as far as it is used.
#[derive(Debug)]
pub struct Tags {
    pub title: Option<String>,
    pub artist: Option<String>,
    pub album: Option<String>,
    pub year: Option<u32>,
    pub track: Option<u32>,
}

/// `name`, or "Unknown" where there is none.
pub open spec fn name_or_unknown(name: Option<String>) -> Seq<char> {
    match name {
        Some(n) => n@,
        None => "Unknown"@,
    }
}

/// The track that the file at `path` with the length `length` is, given its
/// tags if it has any. An artist or album that the tags do not tell is
/// called "Unknown".
pub open spec fn track_of(path: Seq<char>, length: nat, tags: Option<Tags>) -> TrackView {
    match tags {
        Some(tags) => TrackView {
            title: match tags.title {
                Some(t) => Some(t@),
                None => None,
            },
            artist: name_or_unknown(tags.artist),
            album: name_or_unknown(tags.album),
            year: tags.year,
            number: tags.track,
            length,
            file_path: path,
        },
        None => TrackView {
            title: None,
            artist: "Unknown"@,
            album: "Unknown"@,
            year: None,
            number: None,
            length,
            file_path: path,
        },
    }
}

/// The album that `track` alone makes.
pub open spec fn album_of(track: TrackView) -> AlbumView {
    AlbumView { name: track.album, year: track.year, tracks: seq![track] }
}

/// The artist that `track` alone makes: with the pseudo-album of all their
/// tracks and the album of the track.
pub open spec fn artist_of(track: TrackView) -> ArtistView {
    ArtistView {
        name: track.artist,
        albums: seq![
            AlbumView { name: "All Albums"@, year: None, tracks: seq![track] },
            album_of(track),
        ],
    }
}

/// `name`, or "Unknown" where there is none.
fn or_unknown(name: Option<String>) -> (text: String)
    ensures
        text@ == name_or_unknown(name),
{
    match name {
        Some(n) => n,
        None => String::from_str("Unknown"),
    }
}

/// The track that the file at `path` with the length `length` is, given its
/// tags if it has any, together with the artist and the album that the
/// track alone makes.
pub fn track_data(path: &str, length: Duration, tags: Option<Tags>) -> (data: (
    Track,
    Artist,
    Album,
))
    ensures
        data.0@ == track_of(path@, length@, tags),
        data.1@ == artist_of(data.0@),
        data.2@ == album_of(data.0@),
{
    let track = match tags {
        Some(tags) => Track {
            title: tags.title,
            artist: or_unknown(tags.artist),
            album: or_unknown(tags.album),
            year: tags.year,
            number: tags.track,
            length,
            file_path: String::from_str(path),
        },
        None => Track {
            title: None,
            artist: String::from_str("Unknown"),
            album: String::from_str("Unknown"),
            year: None,
            number: None,
            length,
            file_path: String::from_str(path),
        },
    };
    let mut tracks: Vec<Track> = Vec::new();
    tracks.push(track.clone());
    assert(track_views(tracks@) =~= seq![track@]);
    let album = Album { name: track.album.clone(), year: track.year, tracks };
    let mut all_tracks: Vec<Track> = Vec::new();
    all_tracks.push(track.clone());
    assert(track_views(all_tracks@) =~= seq![track@]);
    let all = Album { name: String::from_str("All Albums"), year: None, tracks: all_tracks };
    let mut albums: Vec<Album> = Vec::new();
    albums.push(all);
    albums.push(album.clone());
    assert(crate::library::album::album_views(albums@) =~= seq![all@, album@]);
    let artist = Artist { name: track.artist.clone(), albums };
    (track, artist, album)
}

impl Clone for Library {
    fn clone(&self) -> (copy: Self)
        ensures
            copy@ == self@,
    {
        let known_paths = self.known_paths.clone();
        assert(text_views(known_paths@) =~= text_views(self.known_paths@));
        Library { tracks: self.tracks.clone(), known_paths }
    }
}

impl Library {
    /// The tracks of the library.
    pub fn playlist(&self) -> (tracks: &Playlist)
        ensures
            tracks@ == self@.tracks,
    {
        &self.tracks
    }

    /// A library without tracks that knows no file.
    pub fn new() -> (library: Self)
        ensures
            library@ == (LibraryView {
                tracks: PlaylistView { name: "Library"@, tracks: Seq::empty() },
                known_paths: Set::empty(),
            }),
    {
        let library = Library { tracks: Playlist::new("Library"), known_paths: Vec::new() };
        assert(text_views(library.known_paths@).to_set() =~= Set::empty());
        library
    }

    /// Whether the file at `path` has been looked at.
    pub fn knows(&self, path: &str) -> (known: bool)
        ensures
            known == self@.known_paths.contains(path@),
    {
        let wanted = String::from_str(path);
        let ghost paths = text_views(self.known_paths@);
        let mut i: usize = 0;
        while i < self.known_paths.len()
            invariant
                i <= self.known_paths.len(),
                wanted@ == path@,
                paths == text_views(self.known_paths@),
                forall|j: int| 0 <= j < i ==> paths[j] != path@,
            decreases self.known_paths.len() - i,
        {
            assert(paths[i as int] == self.known_paths@[i as int]@);
            if self.known_paths[i] == wanted {
                assert(paths.contains(path@));
                return true;
            }
            i += 1;
        }
        assert(!paths.contains(path@));
        false
    }

    /// Takes note of the file at `path` with the extension `extension`.
    /// Returns whether the file is to be read: it is when it has not been
    /// looked at before and its extension is that of an audio file.
    pub fn register(&mut self, path: &str, extension: Option<&str>) -> (read: bool)
        ensures
            final(self)@ == (LibraryView {
                known_paths: old(self)@.known_paths.insert(path@),
                ..old(self)@
            }),
            read == (!old(self)@.known_paths.contains(path@) && match extension {
                Some(e) => supported_extension(e@),
                None => false,
            }),
    {
        if self.knows(path) {
            assert(self@.known_paths.insert(path@) =~= self@.known_paths);
            return false;
        }
        let ghost before = text_views(self.known_paths@);
        self.known_paths.push(String::from_str(path));
        assert(text_views(self.known_paths@) =~= before.push(path@));
        assert(before.push(path@).to_set() =~= before.to_set().insert(path@)) by {
            assert forall|p: Seq<char>| before.push(path@).contains(p) <==> (before.contains(p)
                || p == path@) by {
                if before.push(path@).contains(p) {
                    let j = choose|j: int|
                        0 <= j < before.push(path@).len() && before.push(path@)[j] == p;
                    if j < before.len() {
                        assert(before[j] == p);
                    }
                }
                if before.contains(p) {
                    let j = choose|j: int| 0 <= j < before.len() && before[j] == p;
                    assert(before.push(path@)[j] == p);
                }
                if p == path@ {
                    assert(before.push(path@)[before.len() as int] == p);
                }
            }
        }
        match extension {
            Some(e) => is_supported_extension(e),
            None => false,
        }
    }
}

impl Save for Library {
    /// A library is kept as the playlist of its tracks.
    open spec fn saved(&self) -> Seq<char> {
        self@.tracks.saved_text()
    }

    fn save(&self) -> (text: String) {
        self.tracks.save()
    }
}

impl Load for Library {
    /// A library is read as the playlist of its tracks; it then knows the
    /// files of those tracks.
    open spec fn is_loaded(lines: Seq<Seq<char>>, outcome: Result<Self, PlaylistError>) -> bool {
        match outcome {
            Ok(library) => {
                &&& exists|playlist: Playlist|
                    Playlist::is_loaded(lines, Ok(playlist)) && playlist@ == library@.tracks
                &&& library@.known_paths == file_paths(library@.tracks.tracks)
            },
            Err(error) => Playlist::is_loaded(lines, Err(error)),
        }
    }

    fn load(lines: &Vec<String>) -> (outcome: Result<Self, PlaylistError>) {
        match Playlist::load(lines) {
            Ok(tracks) => {
                let ghost loaded = tracks;
                let mut known_paths: Vec<String> = Vec::new();
                let mut i: usize = 0;
                let ghost paths = track_views(tracks.tracks@).map_values(
                    |t: TrackView| t.file_path,
                );
                assert(text_views(known_paths@) =~= paths.subrange(0, 0));
                while i < tracks.tracks.len()
                    invariant
                        i <= tracks.tracks.len(),
                        paths == track_views(tracks.tracks@).map_values(
                            |t: TrackView| t.file_path,
                        ),
                        text_views(known_paths@) == paths.subrange(0, i as int),
                    decreases tracks.tracks.len() - i,
                {
                    let ghost before = text_views(known_paths@);
                    known_paths.push(tracks.tracks[i].file_path.clone());
                    assert(paths[i as int] == tracks.tracks@[i as int]@.file_path);
                    assert(text_views(known_paths@) =~= before.push(paths[i as int]));
                    i += 1;
                    assert(before.push(paths[i - 1]) =~= paths.subrange(0, i as int));
                }
                assert(paths.subrange(0, i as int) =~= paths);
                let library = Library { tracks, known_paths };
                assert(Playlist::is_loaded(text_views(lines@), Ok(loaded)));
                Ok(library)
            },
            Err(error) => Err(error),
        }
    }
}

} // verus!
