//! Playlists: named, ordered lists of tracks, and the text they are kept as.
//!
//! A playlist is kept as extended M3U: a header line, a line with the name,
//! and for each track lines with its artist, its album and its further
//! details, followed by the line with its path.

use crate::library::album::{album_views, Album};
use crate::library::artist::Artist;
use crate::library::listing::{artist_views, artists_and_albums, listed_albums, listed_artists};
use crate::library::track::{track_views, Track, TrackView};
use crate::text::{
    char_is_whitespace, decimal, decimal_digits, find_char, is_whitespace, parse_number,
    parsed_number, place_of, starts_with,
};
use crate::time::{Duration, NANOS_PER_SEC};
use crate::traits::{Load, Save};
use vstd::prelude::*;
use vstd::string::{StrSliceExecFns, StringExecFns};

verus! {

/// A named list of tracks in the order the user gave them.
#[derive(Debug)]
pub struct Playlist {
    pub name: String,
    pub tracks: Vec<Track>,
}

/// What a [`Playlist`] holds, as plain values.
pub struct PlaylistView {
    pub name: Seq<char>,
    pub tracks: Seq<TrackView>,
}

impl View for Playlist {
    type V = PlaylistView;

    open spec fn view(&self) -> PlaylistView {
        PlaylistView { name: self.name@, tracks: track_views(self.tracks@) }
    }
}

impl DeepView for Playlist {
    type V = PlaylistView;

    open spec fn deep_view(&self) -> PlaylistView {
        self@
    }
}

impl Clone for Playlist {
    fn clone(&self) -> (copy: Self)
        ensures
            copy@ == self@,
    {
        let tracks = self.tracks.clone();
        assert(track_views(tracks@) =~= track_views(self.tracks@));
        Playlist { name: self.name.clone(), tracks }
    }
}

impl Playlist {
    /// An empty playlist called `name`.
    pub fn new(name: &str) -> (playlist: Self)
        ensures
            playlist@ == (PlaylistView { name: name@, tracks: Seq::empty() }),
    {
        let playlist = Playlist { name: name.to_owned(), tracks: Vec::new() };
        assert(track_views(playlist.tracks@) =~= Seq::empty());
        playlist
    }

    /// The artists and the albums that the tracks of the playlist are shown
    /// under, each in their listed order.
    pub fn get_artists_albums(&self) -> (lists: (Vec<Artist>, Vec<Album>))
        ensures
            artist_views(lists.0@) == listed_artists(self@.tracks),
            album_views(lists.1@) == listed_albums(self@.tracks),
    {
        artists_and_albums(&self.tracks)
    }

    /// Moves all of `tracks` to the end of the playlist, leaving `tracks`
    /// empty.
    pub fn add(&mut self, tracks: &mut Vec<Track>)
        ensures
            final(self)@ == (PlaylistView {
                tracks: old(self)@.tracks + track_views(old(tracks)@),
                ..old(self)@
            }),
            final(tracks)@.len() == 0,
    {
        self.tracks.append(tracks);
        assert(track_views(self.tracks@) =~= track_views(old(self).tracks@) + track_views(
            old(tracks)@,
        ));
    }
}

/// Why lines of text are not a playlist.
#[derive(Debug, PartialEq, Eq)]
pub enum PlaylistError {
    /// There is no line at all.
    InvalidFile,
    /// The first line is not the header of an extended M3U file; it is this.
    InvalidHeader(String),
    /// The details of a track hold no comma before the title.
    MissingComma { line: usize, text: String },
    /// A detail of a track is not of the form key, equals sign, value.
    NotKeyValue { line: usize, property: String },
}

/// A [`PlaylistError`] with its texts as plain values.
pub enum PlaylistErrorView {
    InvalidFile,
    InvalidHeader(Seq<char>),
    MissingComma { line: nat, text: Seq<char> },
    NotKeyValue { line: nat, property: Seq<char> },
}

impl View for PlaylistError {
    type V = PlaylistErrorView;

    open spec fn view(&self) -> PlaylistErrorView {
        match *self {
            PlaylistError::InvalidFile => PlaylistErrorView::InvalidFile,
            PlaylistError::InvalidHeader(header) => PlaylistErrorView::InvalidHeader(header@),
            PlaylistError::MissingComma { line, text } => PlaylistErrorView::MissingComma {
                line: line as nat,
                text: text@,
            },
            PlaylistError::NotKeyValue { line, property } => PlaylistErrorView::NotKeyValue {
                line: line as nat,
                property: property@,
            },
        }
    }
}

impl PlaylistErrorView {
    /// The error as a line for the user, for a playlist read from `path`.
    pub open spec fn message(self, path: Seq<char>) -> Seq<char> {
        match self {
            PlaylistErrorView::InvalidFile => path + ": Invalid m3u8 file"@,
            PlaylistErrorView::InvalidHeader(header) => path + ": Invalid m3u8 header: '"@ + header
                + "'"@,
            PlaylistErrorView::MissingComma { line, text } => "Error parsing #EXTINF on line "@
                + decimal_digits(line) + ": missing comma: '"@ + text + "'"@,
            PlaylistErrorView::NotKeyValue { line, property } => "Error parsing #EXTINF on line "@
                + decimal_digits(line) + ": property '"@ + property + "' is not a key-value pair"@,
        }
    }
}

impl PlaylistError {
    /// The error as a line for the user, for a playlist read from `path`.
    pub fn message(&self, path: &str) -> (text: String)
        ensures
            text@ == self@.message(path@),
    {
        match self {
            PlaylistError::InvalidFile => String::from_str(path).concat(": Invalid m3u8 file"),
            PlaylistError::InvalidHeader(header) => String::from_str(path).concat(
                ": Invalid m3u8 header: '",
            ).concat(header.as_str()).concat("'"),
            PlaylistError::MissingComma { line, text } => String::from_str(
                "Error parsing #EXTINF on line ",
            ).concat(decimal(*line as u64).as_str()).concat(": missing comma: '").concat(
                text.as_str(),
            ).concat("'"),
            PlaylistError::NotKeyValue { line, property } => String::from_str(
                "Error parsing #EXTINF on line ",
            ).concat(decimal(*line as u64).as_str()).concat(": property '").concat(
                property.as_str(),
            ).concat("' is not a key-value pair"),
        }
    }
}

/// The view of an optional text.
pub open spec fn text_option_view(text: Option<String>) -> Option<Seq<char>> {
    match text {
        Some(t) => Some(t@),
        None => None,
    }
}

/// The views of a sequence of texts, in the same order.
pub open spec fn text_views(texts: Seq<String>) -> Seq<Seq<char>> {
    texts.map_values(|t: String| t@)
}

/// The views of a sequence of pairs of texts, in the same order.
pub open spec fn entry_views(entries: Seq<(String, String)>) -> Seq<(Seq<char>, Seq<char>)> {
    entries.map_values(|e: (String, String)| (e.0@, e.1@))
}

/// The value that `entries` give for `key`: that of the last entry with
/// that key.
pub open spec fn lookup(entries: Seq<(Seq<char>, Seq<char>)>, key: Seq<char>) -> Option<
    Seq<char>,
>
    decreases entries.len(),
{
    if entries.len() == 0 {
        None
    } else if entries.last().0 == key {
        Some(entries.last().1)
    } else {
        lookup(entries.drop_last(), key)
    }
}

/// The details of one track as read from its `#EXTINF` line: keys with their
/// values, in the order in which they were read. Where a key occurs more than
/// once, its last value counts.
#[derive(Debug)]
pub struct TrackInfo {
    entries: Vec<(String, String)>,
}

impl View for TrackInfo {
    type V = Seq<(Seq<char>, Seq<char>)>;

    closed spec fn view(&self) -> Seq<(Seq<char>, Seq<char>)> {
        entry_views(self.entries@)
    }
}

impl TrackInfo {
    /// The value of `key`, if there is one.
    pub fn get(&self, key: &str) -> (value: Option<String>)
        ensures
            text_option_view(value) == lookup(self@, key@),
    {
        let wanted = String::from_str(key);
        let mut i: usize = self.entries.len();
        assert(self@.subrange(0, i as int) =~= self@);
        while i > 0
            invariant
                i <= self.entries.len(),
                wanted@ == key@,
                lookup(self@, key@) == lookup(self@.subrange(0, i as int), key@),
            decreases i,
        {
            i -= 1;
            let ghost seen = self@.subrange(0, i + 1);
            assert(seen.last() == (self.entries@[i as int].0@, self.entries@[i as int].1@));
            assert(seen.drop_last() =~= self@.subrange(0, i as int));
            if self.entries[i].0 == wanted {
                return Some(self.entries[i].1.clone());
            }
        }
        None
    }
}

/// The pieces of `text` between its white space characters. There is one
/// piece more than there are white space characters; a piece is empty where
/// two of them meet or one stands at an end.
pub open spec fn pieces(text: Seq<char>) -> Seq<Seq<char>>
    decreases text.len(),
{
    if text.len() == 0 {
        seq![Seq::empty()]
    } else {
        let before = pieces(text.drop_last());
        if is_whitespace(text.last()) {
            before.push(Seq::empty())
        } else {
            before.drop_last().push(before.last().push(text.last()))
        }
    }
}

/// The pieces of `text` between its white space characters.
pub fn split_at_whitespace(text: &str) -> (parts: Vec<String>)
    ensures
        text_views(parts@) == pieces(text@),
        parts@.len() > 0,
{
    let len = text.unicode_len();
    let mut parts: Vec<String> = Vec::new();
    let mut start: usize = 0;
    let mut i: usize = 0;
    assert(text@.subrange(0, 0) =~= Seq::<char>::empty());
    assert(text_views(parts@).push(text@.subrange(0, 0)) =~= pieces(text@.subrange(0, 0)));
    while i < len
        invariant
            start <= i <= len,
            len == text@.len(),
            pieces(text@.subrange(0, i as int)) == text_views(parts@).push(
                text@.subrange(start as int, i as int),
            ),
        decreases len - i,
    {
        let c = text.get_char(i);
        let ghost seen = text@.subrange(0, i + 1);
        let ghost done = text_views(parts@);
        assert(seen.drop_last() =~= text@.subrange(0, i as int));
        assert(seen.last() == c);
        let ghost before = pieces(seen.drop_last());
        assert(before.last() == text@.subrange(start as int, i as int));
        assert(before.drop_last() =~= done);
        if char_is_whitespace(c) {
            parts.push(text.substring_char(start, i).to_owned());
            assert(text_views(parts@) =~= done.push(text@.subrange(start as int, i as int)));
            start = i + 1;
            assert(text@.subrange(start as int, i + 1) =~= Seq::<char>::empty());
        } else {
            assert(text@.subrange(start as int, i + 1) =~= text@.subrange(
                start as int,
                i as int,
            ).push(c));
        }
        i += 1;
    }
    assert(text@.subrange(0, len as int) =~= text@);
    let ghost done = text_views(parts@);
    parts.push(text.substring_char(start, len).to_owned());
    assert(text_views(parts@) =~= done.push(text@.subrange(start as int, len as int)));
    parts
}

/// The entries that the pieces after the duration stand for, each split at
/// its first equals sign; or the first piece that holds none.
pub open spec fn property_entries(properties: Seq<Seq<char>>) -> Result<
    Seq<(Seq<char>, Seq<char>)>,
    Seq<char>,
>
    decreases properties.len(),
{
    if properties.len() == 0 {
        Ok(Seq::empty())
    } else {
        match property_entries(properties.drop_last()) {
            Err(property) => Err(property),
            Ok(entries) => {
                let property = properties.last();
                let equals = place_of(property, '=', 0);
                if equals < property.len() {
                    Ok(
                        entries.push(
                            (
                                property.subrange(0, equals),
                                property.subrange(equals + 1, property.len() as int),
                            ),
                        ),
                    )
                } else {
                    Err(property)
                }
            },
        }
    }
}

/// The details that the text after `#EXTINF:` holds, read on line `line`.
///
/// What follows the first comma is the title. What stands before it is split
/// at white space: the first piece is the duration, each further piece a key
/// and a value with an equals sign between them.
pub open spec fn parsed_extinf(extinf: Seq<char>, line: nat) -> Result<
    Seq<(Seq<char>, Seq<char>)>,
    PlaylistErrorView,
> {
    let comma = place_of(extinf, ',', 0);
    if comma >= extinf.len() {
        Err(PlaylistErrorView::MissingComma { line, text: extinf })
    } else {
        let parts = pieces(extinf.subrange(0, comma));
        match property_entries(parts.drop_first()) {
            Ok(entries) => Ok(
                seq![
                    ("title"@, extinf.subrange(comma + 1, extinf.len() as int)),
                    ("duration"@, parts[0]),
                ] + entries,
            ),
            Err(property) => Err(PlaylistErrorView::NotKeyValue { line, property }),
        }
    }
}

/// Whether `outcome` is the error `expected`, or the value that `expected`
/// holds.
pub open spec fn is_extinf_outcome(
    outcome: Result<TrackInfo, PlaylistError>,
    expected: Result<Seq<(Seq<char>, Seq<char>)>, PlaylistErrorView>,
) -> bool {
    match (outcome, expected) {
        (Ok(info), Ok(entries)) => info@ == entries,
        (Err(error), Err(view)) => error@ == view,
        _ => false,
    }
}

/// The details that the text after `#EXTINF:` holds, read on line `linenum`.
pub fn parse_extinf(extinf: &str, linenum: usize) -> (outcome: Result<TrackInfo, PlaylistError>)
    ensures
        is_extinf_outcome(outcome, parsed_extinf(extinf@, linenum as nat)),
{
    let len = extinf.unicode_len();
    let comma = find_char(extinf, ',', 0);
    if comma >= len {
        return Err(PlaylistError::MissingComma { line: linenum, text: extinf.to_owned() });
    }
    let title = extinf.substring_char(comma + 1, len).to_owned();
    let parts = split_at_whitespace(extinf.substring_char(0, comma));
    let ghost part_views = text_views(parts@);
    let mut entries: Vec<(String, String)> = Vec::new();
    entries.push((String::from_str("title"), title));
    entries.push((String::from_str("duration"), parts[0].clone()));
    let ghost head = entry_views(entries@);
    assert(head =~= seq![
        ("title"@, extinf@.subrange(comma + 1, extinf@.len() as int)),
        ("duration"@, part_views[0]),
    ]);
    let mut i: usize = 1;
    assert(part_views.drop_first().subrange(0, 0) =~= Seq::<Seq<char>>::empty());
    assert(entry_views(entries@) =~= head + Seq::<(Seq<char>, Seq<char>)>::empty());
    while i < parts.len()
        invariant
            1 <= i <= parts.len(),
            part_views == text_views(parts@),
            part_views == pieces(extinf@.subrange(0, comma as int)),
            comma == place_of(extinf@, ',', 0),
            comma < extinf@.len(),
            head == seq![
                ("title"@, extinf@.subrange(comma + 1, extinf@.len() as int)),
                ("duration"@, part_views[0]),
            ],
            property_entries(part_views.drop_first().subrange(0, i - 1)) is Ok,
            entry_views(entries@) == head + property_entries(
                part_views.drop_first().subrange(0, i - 1),
            )->Ok_0,
        decreases parts.len() - i,
    {
        let property = parts[i].as_str();
        let ghost seen = part_views.drop_first().subrange(0, i as int);
        let ghost done = property_entries(part_views.drop_first().subrange(0, i - 1))->Ok_0;
        assert(seen.drop_last() =~= part_views.drop_first().subrange(0, i - 1));
        assert(seen.last() == property@);
        let equals = find_char(property, '=', 0);
        let property_len = property.unicode_len();
        if equals >= property_len {
            proof {
                lemma_property_entries_error(part_views.drop_first(), i as int);
            }
            return Err(
                PlaylistError::NotKeyValue { line: linenum, property: property.to_owned() },
            );
        }
        let key = property.substring_char(0, equals).to_owned();
        let value = property.substring_char(equals + 1, property_len).to_owned();
        let ghost entry = (key@, value@);
        let ghost before = entry_views(entries@);
        entries.push((key, value));
        assert(entry_views(entries@) =~= before.push(entry));
        assert(property_entries(seen) == Ok::<_, Seq<char>>(done.push(entry)));
        assert(before.push(entry) =~= head + done.push(entry));
        i += 1;
    }
    assert(part_views.drop_first().subrange(0, i - 1) =~= part_views.drop_first());
    Ok(TrackInfo { entries })
}

/// Where the first `count` of `properties` already hold a piece without an
/// equals sign, that piece is the error for all of them.
proof fn lemma_property_entries_error(properties: Seq<Seq<char>>, count: int)
    requires
        0 <= count <= properties.len(),
        property_entries(properties.subrange(0, count)) is Err,
    ensures
        property_entries(properties) == property_entries(properties.subrange(0, count)),
    decreases properties.len() - count,
{
    if count == properties.len() {
        assert(properties.subrange(0, count) =~= properties);
    } else {
        let longer = properties.subrange(0, count + 1);
        assert(longer.drop_last() =~= properties.subrange(0, count));
        lemma_property_entries_error(properties, count + 1);
    }
}

/// What a line of a playlist file is.
#[derive(Clone, Copy, Debug, PartialEq, Eq, Structural)]
pub enum LineKind {
    /// `#PLAYLIST:` and the name of the playlist.
    Playlist,
    /// `#EXTART:` and the artist of the next track.
    Artist,
    /// `#EXTALB:` and the album of the next track.
    Album,
    /// `#EXTINF:` and the details of the next track.
    Info,
    /// Any other line that begins with `#`.
    Comment,
    /// The path of a track.
    Path,
}

/// The first place at or after `from` that holds no decimal digit, or the
/// length of `text` when only digits follow.
pub open spec fn digits_end(text: Seq<char>, from: int) -> int
    decreases text.len() - from,
{
    if 0 <= from < text.len() && 0x30 <= text[from] as u32 <= 0x39 {
        digits_end(text, from + 1)
    } else {
        from
    }
}

/// What follows `prefix` in a line that begins with it.
pub open spec fn after_prefix(line: Seq<char>, prefix: Seq<char>) -> Seq<char> {
    line.subrange(prefix.len() as int, line.len() as int)
}

/// Whether `line` holds the details of a track: `#EXTINF:`, digits if any,
/// and then either a comma, or white space, at least one more character and
/// a comma somewhere after it.
pub open spec fn is_info_line(line: Seq<char>) -> bool {
    let prefix = "#EXTINF:"@;
    let start = digits_end(line, prefix.len() as int);
    &&& prefix.is_prefix_of(line)
    &&& start < line.len()
    &&& {
        ||| line[start] == ','
        ||| {
            &&& is_whitespace(line[start])
            &&& start + 2 <= line.len()
            &&& place_of(line, ',', start + 2) < line.len()
        }
    }
}

/// What `line` is.
pub open spec fn kind_of(line: Seq<char>) -> LineKind {
    if "#PLAYLIST:"@.is_prefix_of(line) {
        LineKind::Playlist
    } else if "#EXTART:"@.is_prefix_of(line) {
        LineKind::Artist
    } else if "#EXTALB:"@.is_prefix_of(line) {
        LineKind::Album
    } else if is_info_line(line) {
        LineKind::Info
    } else if "#"@.is_prefix_of(line) {
        LineKind::Comment
    } else {
        LineKind::Path
    }
}

/// Whether `line` holds the details of a track.
fn holds_info(line: &str) -> (info: bool)
    ensures
        info == is_info_line(line@),
{
    let prefix = "#EXTINF:";
    if !starts_with(line, prefix) {
        return false;
    }
    let len = line.unicode_len();
    let mut start: usize = prefix.unicode_len();
    while start < len && is_digit(line.get_char(start))
        invariant
            prefix@.len() <= start <= len,
            len == line@.len(),
            digits_end(line@, prefix@.len() as int) == digits_end(line@, start as int),
        decreases len - start,
    {
        start += 1;
    }
    if start >= len {
        return false;
    }
    let c = line.get_char(start);
    if c == ',' {
        true
    } else if char_is_whitespace(c) && len - start >= 2 {
        find_char(line, ',', start + 2) < len
    } else {
        false
    }
}

/// Whether `c` is a decimal digit.
fn is_digit(c: char) -> (digit: bool)
    ensures
        digit == (0x30 <= c as u32 <= 0x39),
{
    let code: u32 = c as u32;
    0x30 <= code && code <= 0x39
}

/// What `line` is.
pub fn line_kind(line: &str) -> (kind: LineKind)
    ensures
        kind == kind_of(line@),
{
    if starts_with(line, "#PLAYLIST:") {
        LineKind::Playlist
    } else if starts_with(line, "#EXTART:") {
        LineKind::Artist
    } else if starts_with(line, "#EXTALB:") {
        LineKind::Album
    } else if holds_info(line) {
        LineKind::Info
    } else if starts_with(line, "#") {
        LineKind::Comment
    } else {
        LineKind::Path
    }
}

/// What follows `prefix` in `line`.
fn value_after(line: &str, prefix: &str) -> (value: String)
    requires
        prefix@.is_prefix_of(line@),
    ensures
        value@ == after_prefix(line@, prefix@),
{
    line.substring_char(prefix.unicode_len(), line.unicode_len()).to_owned()
}

/// What has been read of a playlist: its name, its tracks so far, and what
/// is known of the track whose path is still to come.
#[derive(Debug)]
pub struct Reading {
    pub name: String,
    pub tracks: Vec<Track>,
    pub artist: Option<String>,
    pub album: Option<String>,
    pub duration: Option<Duration>,
    pub title: Option<String>,
    pub year: Option<u32>,
    pub number: Option<u32>,
}

/// A [`Reading`] as plain values.
pub struct ReadingView {
    pub name: Seq<char>,
    pub tracks: Seq<TrackView>,
    pub artist: Option<Seq<char>>,
    pub album: Option<Seq<char>>,
    /// The duration in nanoseconds.
    pub duration: Option<nat>,
    pub title: Option<Seq<char>>,
    pub year: Option<u32>,
    pub number: Option<u32>,
}

impl View for Reading {
    type V = ReadingView;

    open spec fn view(&self) -> ReadingView {
        ReadingView {
            name: self.name@,
            tracks: track_views(self.tracks@),
            artist: text_option_view(self.artist),
            album: text_option_view(self.album),
            duration: match self.duration {
                Some(d) => Some(d@),
                None => None,
            },
            title: text_option_view(self.title),
            year: self.year,
            number: self.number,
        }
    }
}

/// The number that the value of `key` spells, if there is such a value and
/// it spells a number up to `max`; else `kept`.
pub open spec fn number_or(
    info: Seq<(Seq<char>, Seq<char>)>,
    key: Seq<char>,
    max: nat,
    kept: Option<nat>,
) -> Option<nat> {
    match lookup(info, key) {
        Some(text) => match parsed_number(text, max) {
            Some(n) => Some(n),
            None => kept,
        },
        None => kept,
    }
}

/// `n` as a 32-bit number.
pub open spec fn as_u32(n: Option<nat>) -> Option<u32> {
    match n {
        Some(n) => Some(n as u32),
        None => None,
    }
}

/// A 32-bit number as a natural number.
pub open spec fn as_nat(n: Option<u32>) -> Option<nat> {
    match n {
        Some(n) => Some(n as nat),
        None => None,
    }
}

impl ReadingView {
    /// Nothing read yet.
    pub open spec fn initial() -> ReadingView {
        ReadingView {
            name: Seq::empty(),
            tracks: Seq::empty(),
            artist: None,
            album: None,
            duration: None,
            title: None,
            year: None,
            number: None,
        }
    }

    /// The track at `path` with what is known of it. An unknown artist or
    /// album is called "Unknown", an unknown duration is zero.
    pub open spec fn track(self, path: Seq<char>) -> TrackView {
        TrackView {
            title: self.title,
            artist: match self.artist {
                Some(artist) => artist,
                None => "Unknown"@,
            },
            album: match self.album {
                Some(album) => album,
                None => "Unknown"@,
            },
            year: self.year,
            number: self.number,
            length: match self.duration {
                Some(d) => d,
                None => 0,
            },
            file_path: path,
        }
    }

    /// The reading after the details `info` of a track: the title is the one
    /// given; duration, year and number are replaced where `info` spells a
    /// number for them.
    pub open spec fn with_info(self, info: Seq<(Seq<char>, Seq<char>)>) -> ReadingView {
        ReadingView {
            duration: match number_or(info, "duration"@, u64::MAX as nat, None) {
                Some(secs) => Some(secs * NANOS_PER_SEC as nat),
                None => self.duration,
            },
            year: as_u32(number_or(info, "year"@, u32::MAX as nat, as_nat(self.year))),
            number: as_u32(number_or(info, "number"@, u32::MAX as nat, as_nat(self.number))),
            title: lookup(info, "title"@),
            ..self
        }
    }

    /// The reading after the path of a track: the track is added, and
    /// nothing is known of the next one.
    pub open spec fn with_path(self, path: Seq<char>) -> ReadingView {
        ReadingView { name: self.name, tracks: self.tracks.push(self.track(path)), ..Self::initial() }
    }

    /// The reading after `line`, which is line `number` of the file.
    pub open spec fn after_line(self, line: Seq<char>, number: nat) -> Result<
        ReadingView,
        PlaylistErrorView,
    > {
        match kind_of(line) {
            LineKind::Playlist => Ok(
                ReadingView { name: after_prefix(line, "#PLAYLIST:"@), ..self },
            ),
            LineKind::Artist => Ok(
                ReadingView { artist: Some(after_prefix(line, "#EXTART:"@)), ..self },
            ),
            LineKind::Album => Ok(
                ReadingView { album: Some(after_prefix(line, "#EXTALB:"@)), ..self },
            ),
            LineKind::Info => match parsed_extinf(after_prefix(line, "#EXTINF:"@), number) {
                Ok(info) => Ok(self.with_info(info)),
                Err(error) => Err(error),
            },
            LineKind::Comment => Ok(self),
            LineKind::Path => Ok(self.with_path(line)),
        }
    }
}

/// The reading after the lines of a file from its second line up to, but
/// without, line `count`; or the first error met on the way.
pub open spec fn after_lines(lines: Seq<Seq<char>>, count: int) -> Result<
    ReadingView,
    PlaylistErrorView,
>
    decreases count,
{
    if count <= 1 {
        Ok(ReadingView::initial())
    } else {
        match after_lines(lines, count - 1) {
            Ok(reading) => reading.after_line(lines[count - 1], (count - 1) as nat),
            Err(error) => Err(error),
        }
    }
}

/// An error met among the first `count` lines is the error for all lines.
proof fn lemma_after_lines_error(lines: Seq<Seq<char>>, count: int)
    requires
        0 <= count <= lines.len(),
        after_lines(lines, count) is Err,
    ensures
        after_lines(lines, lines.len() as int) == after_lines(lines, count),
    decreases lines.len() - count,
{
    if count < lines.len() {
        lemma_after_lines_error(lines, count + 1);
    }
}

/// Whether `outcome` is the outcome `expected` of reading.
pub open spec fn is_reading_outcome(
    outcome: Result<Reading, PlaylistError>,
    expected: Result<ReadingView, PlaylistErrorView>,
) -> bool {
    match (outcome, expected) {
        (Ok(reading), Ok(view)) => reading@ == view,
        (Err(error), Err(view)) => error@ == view,
        _ => false,
    }
}

/// The number that the value of `key` spells, if there is such a value and
/// it spells a number up to `max`; else `kept`.
fn read_number(info: &TrackInfo, key: &str, max: u64, kept: Option<u64>) -> (number: Option<u64>)
    ensures
        match number {
            Some(n) => number_or(info@, key@, max as nat, as_nat64(kept)) == Some(n as nat),
            None => number_or(info@, key@, max as nat, as_nat64(kept)) is None,
        },
{
    match info.get(key) {
        Some(text) => match parse_number(text.as_str(), max) {
            Some(n) => Some(n),
            None => kept,
        },
        None => kept,
    }
}

/// A 64-bit number as a natural number.
pub open spec fn as_nat64(n: Option<u64>) -> Option<nat> {
    match n {
        Some(n) => Some(n as nat),
        None => None,
    }
}

/// `n` widened to 64 bits.
fn widen(n: Option<u32>) -> (wide: Option<u64>)
    ensures
        as_nat64(wide) == as_nat(n),
{
    match n {
        Some(n) => Some(n as u64),
        None => None,
    }
}

/// `n`, which fits, narrowed to 32 bits.
fn narrow(n: Option<u64>) -> (narrow: Option<u32>)
    requires
        n is Some ==> n->0 <= u32::MAX,
    ensures
        narrow == as_u32(as_nat64(n)),
{
    match n {
        Some(n) => Some(n as u32),
        None => None,
    }
}

impl Reading {
    /// Nothing read yet.
    pub fn new() -> (reading: Reading)
        ensures
            reading@ == ReadingView::initial(),
    {
        let reading = Reading {
            name: String::new(),
            tracks: Vec::new(),
            artist: None,
            album: None,
            duration: None,
            title: None,
            year: None,
            number: None,
        };
        assert(track_views(reading.tracks@) =~= Seq::empty());
        reading
    }

    /// Takes in `line`, which is line `number` of the file.
    pub fn accept(self, line: &str, number: usize) -> (outcome: Result<Reading, PlaylistError>)
        ensures
            is_reading_outcome(outcome, self@.after_line(line@, number as nat)),
    {
        let mut reading = self;
        match line_kind(line) {
            LineKind::Playlist => {
                reading.name = value_after(line, "#PLAYLIST:");
                Ok(reading)
            },
            LineKind::Artist => {
                reading.artist = Some(value_after(line, "#EXTART:"));
                Ok(reading)
            },
            LineKind::Album => {
                reading.album = Some(value_after(line, "#EXTALB:"));
                Ok(reading)
            },
            LineKind::Info => {
                let details = value_after(line, "#EXTINF:");
                match parse_extinf(details.as_str(), number) {
                    Ok(info) => {
                        match read_number(&info, "duration", u64::MAX, None) {
                            Some(secs) => {
                                reading.duration = Some(Duration::from_secs(secs));
                            },
                            None => {},
                        }
                        let year = read_number(&info, "year", 0xffff_ffff, widen(reading.year));
                        reading.year = narrow(year);
                        let track_number = read_number(
                            &info,
                            "number",
                            0xffff_ffff,
                            widen(reading.number),
                        );
                        reading.number = narrow(track_number);
                        reading.title = info.get("title");
                        Ok(reading)
                    },
                    Err(error) => Err(error),
                }
            },
            LineKind::Comment => Ok(reading),
            LineKind::Path => {
                let ghost before = reading@;
                let track = Track {
                    title: reading.title,
                    artist: match reading.artist {
                        Some(artist) => artist,
                        None => String::from_str("Unknown"),
                    },
                    album: match reading.album {
                        Some(album) => album,
                        None => String::from_str("Unknown"),
                    },
                    year: reading.year,
                    number: reading.number,
                    length: match reading.duration {
                        Some(duration) => duration,
                        None => Duration::zero(),
                    },
                    file_path: line.to_owned(),
                };
                assert(track@ == before.track(line@));
                let mut tracks = reading.tracks;
                tracks.push(track);
                assert(track_views(tracks@) =~= before.tracks.push(track@));
                Ok(
                    Reading {
                        name: reading.name,
                        tracks,
                        artist: None,
                        album: None,
                        duration: None,
                        title: None,
                        year: None,
                        number: None,
                    },
                )
            },
        }
    }
}

/// The header line of an extended M3U file.
pub open spec fn header() -> Seq<char> {
    "#EXTM3U"@
}

/// Checks that `line` is the header of an extended M3U file.
pub fn check_header(line: &str) -> (outcome: Result<(), PlaylistError>)
    ensures
        match outcome {
            Ok(_) => line@ == header(),
            Err(error) => line@ != header() && error@ == PlaylistErrorView::InvalidHeader(line@),
        },
{
    if String::from_str(line) == String::from_str("#EXTM3U") {
        Ok(())
    } else {
        Err(PlaylistError::InvalidHeader(line.to_owned()))
    }
}

/// Reads the lines of a playlist file after its first line: the name of the
/// playlist, empty where the file gives none, and its tracks.
pub fn parse_lines(lines: &Vec<String>) -> (outcome: Result<Reading, PlaylistError>)
    ensures
        is_reading_outcome(outcome, after_lines(text_views(lines@), lines@.len() as int)),
{
    let ghost views = text_views(lines@);
    let mut reading = Reading::new();
    let mut i: usize = 1;
    while i < lines.len()
        invariant
            1 <= i,
            views == text_views(lines@),
            after_lines(views, if i <= lines@.len() { i as int } else { lines@.len() as int })
                == Ok::<ReadingView, PlaylistErrorView>(reading@),
        decreases lines.len() - i,
    {
        assert(views[i as int] == lines@[i as int]@);
        match reading.accept(lines[i].as_str(), i) {
            Ok(next) => {
                reading = next;
            },
            Err(error) => {
                proof {
                    lemma_after_lines_error(views, i + 1);
                }
                return Err(error);
            },
        }
        i += 1;
    }
    Ok(reading)
}

/// A number with a label before it, or nothing where there is no number.
pub open spec fn labelled_number(label: Seq<char>, number: Option<u32>) -> Seq<char> {
    match number {
        Some(n) => label + decimal_digits(n as nat),
        None => Seq::empty(),
    }
}

/// A text, or nothing where there is no text.
pub open spec fn text_or_nothing(text: Option<Seq<char>>) -> Seq<char> {
    match text {
        Some(t) => t,
        None => Seq::empty(),
    }
}

/// The lines that a track is kept as: its artist, its album, its details and
/// its path.
pub open spec fn saved_track(track: TrackView) -> Seq<char> {
    "#EXTART:"@ + track.artist + "\n"@ + "#EXTALB:"@ + track.album + "\n"@ + "#EXTINF:"@
        + decimal_digits(track.length / NANOS_PER_SEC as nat) + labelled_number(
        " year="@,
        track.year,
    ) + labelled_number(" number="@, track.number) + ","@ + text_or_nothing(track.title) + "\n"@
        + track.file_path + "\n"@
}

/// The lines that tracks are kept as, one track after the other.
pub open spec fn saved_tracks(tracks: Seq<TrackView>) -> Seq<char>
    decreases tracks.len(),
{
    if tracks.len() == 0 {
        Seq::empty()
    } else {
        saved_tracks(tracks.drop_last()) + saved_track(tracks.last())
    }
}

/// The name that a playlist goes by where its file gives none.
pub open spec fn name_or_untitled(name: Seq<char>) -> Seq<char> {
    if name.len() == 0 {
        "Untitled"@
    } else {
        name
    }
}

/// A number with a label before it, or nothing where there is no number.
fn write_labelled(label: &str, number: Option<u32>) -> (text: String)
    ensures
        text@ == labelled_number(label@, number),
{
    match number {
        Some(n) => String::from_str(label).concat(decimal(n as u64).as_str()),
        None => String::new(),
    }
}

/// The lines that `track` is kept as.
fn write_track(track: &Track) -> (text: String)
    ensures
        text@ == saved_track(track@),
{
    let mut text = String::from_str("#EXTART:");
    text.append(track.artist.as_str());
    text.append("\n");
    text.append("#EXTALB:");
    text.append(track.album.as_str());
    text.append("\n");
    text.append("#EXTINF:");
    text.append(decimal(track.length.as_secs()).as_str());
    text.append(write_labelled(" year=", track.year).as_str());
    text.append(write_labelled(" number=", track.number).as_str());
    text.append(",");
    match &track.title {
        Some(title) => {
            text.append(title.as_str());
        },
        None => {
            text.append(String::new().as_str());
        },
    }
    text.append("\n");
    text.append(track.file_path.as_str());
    text.append("\n");
    text
}

impl PlaylistView {
    /// The text that the playlist is kept as: the header line, the line with
    /// the name, and the lines of the tracks.
    pub open spec fn saved_text(self) -> Seq<char> {
        "#EXTM3U\n#PLAYLIST:"@ + self.name + "\n"@ + saved_tracks(self.tracks)
    }
}

impl Save for Playlist {
    open spec fn saved(&self) -> Seq<char> {
        self@.saved_text()
    }

    fn save(&self) -> (text: String) {
        let mut text = String::from_str("#EXTM3U\n#PLAYLIST:");
        text.append(self.name.as_str());
        text.append("\n");
        let ghost head = text@;
        let mut i: usize = 0;
        assert(self@.tracks.subrange(0, 0) =~= Seq::<TrackView>::empty());
        assert(text@ =~= head + saved_tracks(self@.tracks.subrange(0, 0)));
        while i < self.tracks.len()
            invariant
                i <= self.tracks.len(),
                text@ == head + saved_tracks(self@.tracks.subrange(0, i as int)),
            decreases self.tracks.len() - i,
        {
            let ghost written = saved_tracks(self@.tracks.subrange(0, i as int));
            let ghost more = self@.tracks.subrange(0, i + 1);
            assert(more.drop_last() =~= self@.tracks.subrange(0, i as int));
            assert(more.last() == self.tracks@[i as int]@);
            text.append(write_track(&self.tracks[i]).as_str());
            assert(text@ =~= head + (written + saved_track(self.tracks@[i as int]@)));
            i += 1;
        }
        assert(self@.tracks.subrange(0, i as int) =~= self@.tracks);
        text
    }
}

impl Load for Playlist {
    /// Without a first line, or with a first line that is not the header,
    /// reading fails. Otherwise it comes to what the further lines hold,
    /// under the name "Untitled" where they give none.
    open spec fn is_loaded(lines: Seq<Seq<char>>, outcome: Result<Self, PlaylistError>) -> bool {
        if lines.len() == 0 {
            outcome matches Err(error) && error@ == PlaylistErrorView::InvalidFile
        } else if lines[0] != header() {
            outcome matches Err(error) && error@ == PlaylistErrorView::InvalidHeader(lines[0])
        } else {
            match (outcome, after_lines(lines, lines.len() as int)) {
                (Ok(playlist), Ok(reading)) => playlist@ == (PlaylistView {
                    name: name_or_untitled(reading.name),
                    tracks: reading.tracks,
                }),
                (Err(error), Err(view)) => error@ == view,
                _ => false,
            }
        }
    }

    fn load(lines: &Vec<String>) -> (outcome: Result<Self, PlaylistError>) {
        if lines.len() == 0 {
            return Err(PlaylistError::InvalidFile);
        }
        assert(text_views(lines@)[0] == lines@[0]@);
        match check_header(lines[0].as_str()) {
            Ok(_) => {},
            Err(error) => {
                return Err(error);
            },
        }
        match parse_lines(lines) {
            Ok(reading) => {
                let name = if reading.name.as_str().unicode_len() == 0 {
                    String::from_str("Untitled")
                } else {
                    reading.name
                };
                Ok(Playlist { name, tracks: reading.tracks })
            },
            Err(error) => Err(error),
        }
    }
}

} // verus!
