//! A single piece of music and what is known about it.

use crate::time::Duration;
use vstd::prelude::*;
use vstd::std_specs::cmp::PartialEqSpecImpl;

verus! {

/// One audio file of the library with its metadata.
///
/// A track is produced once, when its file is read, and is only ever copied
/// or moved afterwards.
#[derive(Debug)]
pub struct Track {
    /// Track name from metadata; where there is none the file name is shown
    /// in its place.
    pub title: Option<String>,
    /// Artist name from metadata if present.
    pub artist: String,
    /// Album name from metadata if present.
    pub album: String,
    /// Year from metadata if present.
    pub year: Option<u32>,
    /// Track number if present.
    pub number: Option<u32>,
    /// Track duration.
    pub length: Duration,
    /// Path to the audio file.
    pub file_path: String,
}

/// What a [`Track`] holds, as plain values.
pub struct TrackView {
    pub title: Option<Seq<char>>,
    pub artist: Seq<char>,
    pub album: Seq<char>,
    pub year: Option<u32>,
    pub number: Option<u32>,
    /// The duration in nanoseconds.
    pub length: nat,
    pub file_path: Seq<char>,
}

impl View for Track {
    type V = TrackView;

    open spec fn view(&self) -> TrackView {
        TrackView {
            title: match self.title {
                Some(t) => Some(t@),
                None => None,
            },
            artist: self.artist@,
            album: self.album@,
            year: self.year,
            number: self.number,
            length: self.length@,
            file_path: self.file_path@,
        }
    }
}

impl DeepView for Track {
    type V = TrackView;

    open spec fn deep_view(&self) -> TrackView {
        self@
    }
}

impl TrackView {
    /// The name a track is shown under: its title, else its file path.
    pub open spec fn display_name(self) -> Seq<char> {
        match self.title {
            Some(t) => t,
            None => self.file_path,
        }
    }
}

/// The views of a sequence of tracks, in the same order.
pub open spec fn track_views(tracks: Seq<Track>) -> Seq<TrackView> {
    tracks.map_values(|t: Track| t@)
}

/// Whether two optional strings hold the same text.
fn same_text(a: &Option<String>, b: &Option<String>) -> (same: bool)
    ensures
        same == (match (*a, *b) {
            (Some(x), Some(y)) => x@ == y@,
            (None, None) => true,
            _ => false,
        }),
{
    match (a, b) {
        (Some(x), Some(y)) => *x == *y,
        (None, None) => true,
        _ => false,
    }
}

impl Clone for Track {
    fn clone(&self) -> (copy: Self)
        ensures
            copy == *self,
    {
        Track {
            title: self.title.clone(),
            artist: self.artist.clone(),
            album: self.album.clone(),
            year: self.year,
            number: self.number,
            length: self.length,
            file_path: self.file_path.clone(),
        }
    }
}

impl PartialEq for Track {
    /// Two tracks are equal when all they hold is equal.
    fn eq(&self, other: &Self) -> (equal: bool) {
        same_text(&self.title, &other.title) && self.artist == other.artist && self.album
            == other.album && self.year == other.year && self.number == other.number
            && self.length.equals(&other.length) && self.file_path == other.file_path
    }
}

impl PartialEqSpecImpl for Track {
    open spec fn obeys_eq_spec() -> bool {
        true
    }

    open spec fn eq_spec(&self, other: &Self) -> bool {
        self@ == other@
    }
}

impl Eq for Track {

}

impl Track {
    /// The name the track is shown under: its title, else its file path.
    pub fn display_name(&self) -> (name: String)
        ensures
            name@ == self@.display_name(),
    {
        match &self.title {
            Some(title) => title.clone(),
            None => self.file_path.clone(),
        }
    }
}

} // verus!
