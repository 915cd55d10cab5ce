//! The artists and albums that a list of tracks is shown under.

use crate::library::album::{album_views, Album, AlbumView};
use crate::library::artist::{Artist, ArtistView};
use crate::library::order::{sort, sorted, views};
use crate::library::track::{track_views, Track, TrackView};
use vstd::prelude::*;
use vstd::string::StringExecFns;

verus! {

/// The views of a sequence of artists, in the same order.
pub open spec fn artist_views(artists: Seq<Artist>) -> Seq<ArtistView> {
    artists.map_values(|a: Artist| a@)
}

/// The name of the pseudo-album that holds the tracks of all albums.
pub open spec fn all_albums_name() -> Seq<char> {
    "All Albums"@
}

/// The name of the pseudo-artist that holds the albums of all artists.
pub open spec fn all_artists_name() -> Seq<char> {
    "All Artists"@
}

/// The place of the first album called `name`, or the number of albums
/// where there is none.
pub open spec fn album_index(albums: Seq<AlbumView>, name: Seq<char>) -> int
    decreases albums.len(),
{
    if albums.len() == 0 || albums[0].name == name {
        0
    } else {
        1 + album_index(albums.drop_first(), name)
    }
}

/// The place of the first artist called `name`, or the number of artists
/// where there is none.
pub open spec fn artist_index(artists: Seq<ArtistView>, name: Seq<char>) -> int
    decreases artists.len(),
{
    if artists.len() == 0 || artists[0].name == name {
        0
    } else {
        1 + artist_index(artists.drop_first(), name)
    }
}

/// `album_index` is the first place that holds an album called `name`.
proof fn lemma_album_index(albums: Seq<AlbumView>, name: Seq<char>, index: int)
    requires
        0 <= index <= albums.len(),
        forall|j: int| 0 <= j < index ==> albums[j].name != name,
        index < albums.len() ==> albums[index].name == name,
    ensures
        album_index(albums, name) == index,
    decreases albums.len(),
{
    if albums.len() > 0 && index > 0 {
        let rest = albums.drop_first();
        assert forall|j: int| 0 <= j < index - 1 implies rest[j].name != name by {
            assert(rest[j] == albums[j + 1]);
        }
        lemma_album_index(rest, name, index - 1);
    }
}

/// `artist_index` is the first place that holds an artist called `name`.
proof fn lemma_artist_index(artists: Seq<ArtistView>, name: Seq<char>, index: int)
    requires
        0 <= index <= artists.len(),
        forall|j: int| 0 <= j < index ==> artists[j].name != name,
        index < artists.len() ==> artists[index].name == name,
    ensures
        artist_index(artists, name) == index,
    decreases artists.len(),
{
    if artists.len() > 0 && index > 0 {
        let rest = artists.drop_first();
        assert forall|j: int| 0 <= j < index - 1 implies rest[j].name != name by {
            assert(rest[j] == artists[j + 1]);
        }
        lemma_artist_index(rest, name, index - 1);
    }
}

/// `albums` with `track` added to the album of its name; where there is no
/// such album yet, a new one is added with the year of the track.
pub open spec fn album_with(albums: Seq<AlbumView>, track: TrackView) -> Seq<AlbumView> {
    let index = album_index(albums, track.album);
    if index < albums.len() {
        albums.update(
            index,
            AlbumView { tracks: albums[index].tracks.push(track), ..albums[index] },
        )
    } else {
        albums.push(AlbumView { name: track.album, year: track.year, tracks: seq![track] })
    }
}

/// The albums of `tracks` in the order in which they first occur, each with
/// its tracks in the order of `tracks`.
pub open spec fn grouped_albums(tracks: Seq<TrackView>) -> Seq<AlbumView>
    decreases tracks.len(),
{
    if tracks.len() == 0 {
        Seq::empty()
    } else {
        album_with(grouped_albums(tracks.drop_last()), tracks.last())
    }
}

/// `album` with its tracks sorted.
pub open spec fn album_sorted(album: AlbumView) -> AlbumView {
    AlbumView { tracks: sorted::<Track>(album.tracks), ..album }
}

/// `artist` with its albums sorted.
pub open spec fn artist_sorted(artist: ArtistView) -> ArtistView {
    ArtistView { albums: sorted::<Album>(artist.albums), ..artist }
}

/// `artists` with `track` of `album` added: the track goes into the
/// pseudo-album of its artist, and the album is added to the artist unless
/// the artist has one of that name. Where the artist is new, they start out
/// with the pseudo-album and the album.
pub open spec fn artist_with(artists: Seq<ArtistView>, album: AlbumView, track: TrackView) -> Seq<
    ArtistView,
> {
    let index = artist_index(artists, track.artist);
    if index < artists.len() {
        let artist = artists[index];
        let all = album_index(artist.albums, all_albums_name());
        let with_track = if all < artist.albums.len() {
            artist.albums.update(
                all,
                AlbumView { tracks: artist.albums[all].tracks.push(track), ..artist.albums[all] },
            )
        } else {
            artist.albums
        };
        let with_album = if album_index(with_track, album.name) < with_track.len() {
            with_track
        } else {
            with_track.push(album)
        };
        artists.update(index, ArtistView { albums: with_album, ..artist })
    } else {
        artists.push(
            ArtistView {
                name: track.artist,
                albums: seq![
                    AlbumView { name: all_albums_name(), year: None, tracks: seq![track] },
                    album,
                ],
            },
        )
    }
}

/// `artists` with the first `count` tracks of `album` added.
pub open spec fn artists_with_album(artists: Seq<ArtistView>, album: AlbumView, count: int) -> Seq<
    ArtistView,
>
    decreases count,
{
    if count <= 0 {
        artists
    } else {
        artist_with(artists_with_album(artists, album, count - 1), album, album.tracks[count - 1])
    }
}

/// The artists of the tracks of `albums` in the order in which they first
/// occur, going through the albums and the tracks of each in their order.
pub open spec fn grouped_artists(albums: Seq<AlbumView>) -> Seq<ArtistView>
    decreases albums.len(),
{
    if albums.len() == 0 {
        Seq::empty()
    } else {
        artists_with_album(
            grouped_artists(albums.drop_last()),
            albums.last(),
            albums.last().tracks.len() as int,
        )
    }
}

/// `albums` with `album` in the place of the first album of its name, or at
/// the end where there is none.
pub open spec fn album_set(albums: Seq<AlbumView>, album: AlbumView) -> Seq<AlbumView> {
    let index = album_index(albums, album.name);
    if index < albums.len() {
        albums.update(index, album)
    } else {
        albums.push(album)
    }
}

/// `artists` with `artist` in the place of the first artist of their name,
/// or at the end where there is none.
pub open spec fn artist_set(artists: Seq<ArtistView>, artist: ArtistView) -> Seq<ArtistView> {
    let index = artist_index(artists, artist.name);
    if index < artists.len() {
        artists.update(index, artist)
    } else {
        artists.push(artist)
    }
}

/// The albums of `tracks` with their tracks sorted, in the order in which
/// they first occur.
pub open spec fn sorted_albums(tracks: Seq<TrackView>) -> Seq<AlbumView> {
    grouped_albums(tracks).map_values(|a: AlbumView| album_sorted(a))
}

/// The albums that `tracks` are shown under, in their listed order: the
/// pseudo-album with all of `tracks` in their own order, and each album
/// that occurs among them with its tracks sorted.
pub open spec fn listed_albums(tracks: Seq<TrackView>) -> Seq<AlbumView> {
    sorted::<Album>(
        album_set(
            sorted_albums(tracks),
            AlbumView { name: all_albums_name(), year: None, tracks },
        ),
    )
}

/// The artists that `tracks` are shown under, in their listed order: the
/// pseudo-artist with all listed albums, and each artist that occurs among
/// `tracks` with their albums sorted.
pub open spec fn listed_artists(tracks: Seq<TrackView>) -> Seq<ArtistView> {
    sorted::<Artist>(
        artist_set(
            grouped_artists(sorted_albums(tracks)).map_values(|a: ArtistView| artist_sorted(a)),
            ArtistView { name: all_artists_name(), albums: listed_albums(tracks) },
        ),
    )
}

/// The place of the first album called `name`, or the number of albums
/// where there is none.
fn find_album(albums: &Vec<Album>, name: &String) -> (index: usize)
    ensures
        index == album_index(album_views(albums@), name@),
        index <= albums@.len(),
{
    let mut i: usize = 0;
    while i < albums.len()
        invariant
            i <= albums.len(),
            forall|j: int| 0 <= j < i ==> album_views(albums@)[j].name != name@,
        decreases albums.len() - i,
    {
        assert(album_views(albums@)[i as int] == albums@[i as int]@);
        if albums[i].name == *name {
            proof {
                lemma_album_index(album_views(albums@), name@, i as int);
            }
            return i;
        }
        i += 1;
    }
    proof {
        lemma_album_index(album_views(albums@), name@, i as int);
    }
    i
}

/// The place of the first artist called `name`, or the number of artists
/// where there is none.
fn find_artist(artists: &Vec<Artist>, name: &String) -> (index: usize)
    ensures
        index == artist_index(artist_views(artists@), name@),
        index <= artists@.len(),
{
    let mut i: usize = 0;
    while i < artists.len()
        invariant
            i <= artists.len(),
            forall|j: int| 0 <= j < i ==> artist_views(artists@)[j].name != name@,
        decreases artists.len() - i,
    {
        assert(artist_views(artists@)[i as int] == artists@[i as int]@);
        if artists[i].name == *name {
            proof {
                lemma_artist_index(artist_views(artists@), name@, i as int);
            }
            return i;
        }
        i += 1;
    }
    proof {
        lemma_artist_index(artist_views(artists@), name@, i as int);
    }
    i
}

/// Puts `album` in the place `index` of `albums`, in the stead of the album
/// that is there.
fn replace_album(albums: &mut Vec<Album>, index: usize, album: Album)
    requires
        index < old(albums)@.len(),
    ensures
        album_views(final(albums)@) == album_views(old(albums)@).update(index as int, album@),
        final(albums)@.len() == old(albums)@.len(),
{
    albums.remove(index);
    albums.insert(index, album);
    assert(album_views(albums@) =~= album_views(old(albums)@).update(index as int, album@));
}

/// Puts `artist` in the place `index` of `artists`, in the stead of the
/// artist that is there.
fn replace_artist(artists: &mut Vec<Artist>, index: usize, artist: Artist)
    requires
        index < old(artists)@.len(),
    ensures
        artist_views(final(artists)@) == artist_views(old(artists)@).update(
            index as int,
            artist@,
        ),
        final(artists)@.len() == old(artists)@.len(),
{
    artists.remove(index);
    artists.insert(index, artist);
    assert(artist_views(artists@) =~= artist_views(old(artists)@).update(index as int, artist@));
}

/// Adds `track` to the album of its name.
fn add_to_album(albums: &mut Vec<Album>, track: &Track)
    ensures
        album_views(final(albums)@) == album_with(album_views(old(albums)@), track@),
{
    let index = find_album(albums, &track.album);
    if index < albums.len() {
        assert(album_views(albums@)[index as int] == albums@[index as int]@);
        let mut album = albums[index].clone();
        let ghost before = track_views(album.tracks@);
        album.tracks.push(track.clone());
        assert(track_views(album.tracks@) =~= before.push(track@));
        replace_album(albums, index, album);
    } else {
        let mut tracks: Vec<Track> = Vec::new();
        tracks.push(track.clone());
        assert(track_views(tracks@) =~= seq![track@]);
        let ghost before = album_views(albums@);
        let album = Album { name: track.album.clone(), year: track.year, tracks };
        albums.push(album);
        assert(album_views(albums@) =~= before.push(album@));
    }
}

/// Adds `track` of `album` to the artist of its name.
fn add_to_artist(artists: &mut Vec<Artist>, album: &Album, track: &Track)
    ensures
        artist_views(final(artists)@) == artist_with(
            artist_views(old(artists)@),
            album@,
            track@,
        ),
{
    let index = find_artist(artists, &track.artist);
    if index < artists.len() {
        assert(artist_views(artists@)[index as int] == artists@[index as int]@);
        let mut artist = artists[index].clone();
        let all = find_album(&artist.albums, &String::from_str("All Albums"));
        if all < artist.albums.len() {
            assert(album_views(artist.albums@)[all as int] == artist.albums@[all as int]@);
            let mut pseudo = artist.albums[all].clone();
            let ghost before = track_views(pseudo.tracks@);
            pseudo.tracks.push(track.clone());
            assert(track_views(pseudo.tracks@) =~= before.push(track@));
            replace_album(&mut artist.albums, all, pseudo);
        }
        if find_album(&artist.albums, &album.name) >= artist.albums.len() {
            let ghost before = album_views(artist.albums@);
            let copy = album.clone();
            artist.albums.push(copy);
            assert(album_views(artist.albums@) =~= before.push(album@));
        }
        replace_artist(artists, index, artist);
    } else {
        let mut tracks: Vec<Track> = Vec::new();
        tracks.push(track.clone());
        assert(track_views(tracks@) =~= seq![track@]);
        let pseudo = Album { name: String::from_str("All Albums"), year: None, tracks };
        let mut albums: Vec<Album> = Vec::new();
        albums.push(pseudo);
        albums.push(album.clone());
        assert(album_views(albums@) =~= seq![pseudo@, album@]);
        let ghost before = artist_views(artists@);
        let artist = Artist { name: track.artist.clone(), albums };
        artists.push(artist);
        assert(artist_views(artists@) =~= before.push(artist@));
    }
}

/// The albums of `tracks` with their tracks sorted, in the order in which
/// they first occur.
fn group_albums(tracks: &Vec<Track>) -> (albums: Vec<Album>)
    ensures
        album_views(albums@) == sorted_albums(track_views(tracks@)),
{
    let ghost all = track_views(tracks@);
    let mut albums: Vec<Album> = Vec::new();
    let mut i: usize = 0;
    assert(all.subrange(0, 0) =~= Seq::<TrackView>::empty());
    assert(album_views(albums@) =~= grouped_albums(all.subrange(0, 0)));
    while i < tracks.len()
        invariant
            i <= tracks.len(),
            all == track_views(tracks@),
            album_views(albums@) == grouped_albums(all.subrange(0, i as int)),
        decreases tracks.len() - i,
    {
        let ghost seen = all.subrange(0, i + 1);
        assert(seen.drop_last() =~= all.subrange(0, i as int));
        assert(seen.last() == tracks@[i as int]@);
        add_to_album(&mut albums, &tracks[i]);
        i += 1;
    }
    assert(all.subrange(0, i as int) =~= all);
    let ghost grouped = album_views(albums@);
    let mut k: usize = 0;
    while k < albums.len()
        invariant
            k <= albums.len(),
            albums@.len() == grouped.len(),
            forall|j: int| 0 <= j < k ==> album_views(albums@)[j] == album_sorted(grouped[j]),
            forall|j: int| k <= j < albums.len() ==> album_views(albums@)[j] == grouped[j],
        decreases albums.len() - k,
    {
        assert(album_views(albums@)[k as int] == albums@[k as int]@);
        let album = albums[k].clone();
        let name = album.name;
        let year = album.year;
        let ordered = sort(album.tracks);
        assert(track_views(ordered@) =~= views(ordered@));
        assert(track_views(album.tracks@) =~= views(album.tracks@));
        let ghost before = album_views(albums@);
        replace_album(&mut albums, k, Album { name, year, tracks: ordered });
        k += 1;
    }
    assert(album_views(albums@) =~= grouped.map_values(|a: AlbumView| album_sorted(a)));
    albums
}

/// The artists of the tracks of `albums` with their albums sorted, in the
/// order in which they first occur.
fn group_artists(albums: &Vec<Album>) -> (artists: Vec<Artist>)
    ensures
        artist_views(artists@) == grouped_artists(album_views(albums@)).map_values(
            |a: ArtistView| artist_sorted(a),
        ),
{
    let ghost all = album_views(albums@);
    let mut artists: Vec<Artist> = Vec::new();
    let mut i: usize = 0;
    assert(all.subrange(0, 0) =~= Seq::<AlbumView>::empty());
    assert(artist_views(artists@) =~= grouped_artists(all.subrange(0, 0)));
    while i < albums.len()
        invariant
            i <= albums.len(),
            all == album_views(albums@),
            artist_views(artists@) == grouped_artists(all.subrange(0, i as int)),
        decreases albums.len() - i,
    {
        let album = &albums[i];
        let ghost seen = all.subrange(0, i + 1);
        assert(seen.drop_last() =~= all.subrange(0, i as int));
        assert(seen.last() == album@);
        let ghost start = artist_views(artists@);
        let mut k: usize = 0;
        while k < album.tracks.len()
            invariant
                k <= album.tracks.len(),
                artist_views(artists@) == artists_with_album(start, album@, k as int),
            decreases album.tracks.len() - k,
        {
            assert(album@.tracks[k as int] == album.tracks@[k as int]@);
            add_to_artist(&mut artists, album, &album.tracks[k]);
            k += 1;
        }
        i += 1;
    }
    assert(all.subrange(0, i as int) =~= all);
    let ghost grouped = artist_views(artists@);
    let mut k: usize = 0;
    while k < artists.len()
        invariant
            k <= artists.len(),
            artists@.len() == grouped.len(),
            forall|j: int| 0 <= j < k ==> artist_views(artists@)[j] == artist_sorted(grouped[j]),
            forall|j: int| k <= j < artists.len() ==> artist_views(artists@)[j] == grouped[j],
        decreases artists.len() - k,
    {
        assert(artist_views(artists@)[k as int] == artists@[k as int]@);
        let artist = artists[k].clone();
        let name = artist.name;
        let ordered = sort(artist.albums);
        assert(album_views(ordered@) =~= views(ordered@));
        assert(album_views(artist.albums@) =~= views(artist.albums@));
        replace_artist(&mut artists, k, Artist { name, albums: ordered });
        k += 1;
    }
    assert(artist_views(artists@) =~= grouped.map_values(|a: ArtistView| artist_sorted(a)));
    artists
}

/// The artists and the albums that `tracks` are shown under, each in their
/// listed order.
pub fn artists_and_albums(tracks: &Vec<Track>) -> (lists: (Vec<Artist>, Vec<Album>))
    ensures
        artist_views(lists.0@) == listed_artists(track_views(tracks@)),
        album_views(lists.1@) == listed_albums(track_views(tracks@)),
{
    let mut albums = group_albums(tracks);
    let mut artists = group_artists(&albums);
    let all_tracks = tracks.clone();
    assert(track_views(all_tracks@) =~= track_views(tracks@));
    let all_albums = Album { name: String::from_str("All Albums"), year: None, tracks: all_tracks };
    let index = find_album(&albums, &all_albums.name);
    let ghost before = album_views(albums@);
    if index < albums.len() {
        replace_album(&mut albums, index, all_albums);
    } else {
        albums.push(all_albums);
        assert(album_views(albums@) =~= before.push(all_albums@));
    }
    let albums = sort(albums);
    assert(album_views(albums@) =~= views(albums@));
    let listed = albums.clone();
    assert(album_views(listed@) =~= album_views(albums@));
    let all_artists = Artist { name: String::from_str("All Artists"), albums: listed };
    let index = find_artist(&artists, &all_artists.name);
    let ghost before = artist_views(artists@);
    if index < artists.len() {
        replace_artist(&mut artists, index, all_artists);
    } else {
        artists.push(all_artists);
        assert(artist_views(artists@) =~= before.push(all_artists@));
    }
    let artists = sort(artists);
    assert(artist_views(artists@) =~= views(artists@));
    (artists, albums)
}

} // verus!
