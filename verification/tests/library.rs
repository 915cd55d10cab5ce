use rmup::library::album::Album;
use rmup::library::artist::Artist;
use rmup::library::track::Track;
use rmup::time::Duration;

fn track(title: Option<&str>) -> Track {
    Track {
        title: title.map(|t| t.to_owned()),
        artist: "Someone".to_owned(),
        album: "Something".to_owned(),
        year: None,
        number: Some(1),
        length: Duration::from_secs(60),
        file_path: "/music/file.ogg".to_owned(),
    }
}

#[test]
fn track_is_shown_by_title_or_path() {
    assert_eq!(track(Some("Title")).display_name(), "Title");
    assert_eq!(track(None).display_name(), "/music/file.ogg");
}

#[test]
fn tracks_compare_by_all_they_hold() {
    let a = track(Some("Title"));
    assert_eq!(a, a.clone());
    assert_ne!(a, track(None));
    assert_ne!(a, track(Some("Other")));
    let mut b = a.clone();
    b.length = Duration::from_millis(60_001);
    assert_ne!(a, b);
    let mut c = a.clone();
    c.year = Some(2000);
    assert_ne!(a, c);
    let mut d = a.clone();
    d.file_path.push('x');
    assert_ne!(a, d);
}

#[test]
fn album_builders_set_fields() {
    let album = Album::default();
    assert_eq!(album.name, "");
    assert_eq!(album.year, None);
    assert!(album.tracks.is_empty());
    let mut album = album.name("First").year(Some(1984));
    album.tracks.push(track(None));
    let album = album.name("Second");
    assert_eq!(album.name, "Second");
    assert_eq!(album.year, Some(1984));
    assert_eq!(album.tracks.len(), 1);
    assert_eq!(album.clone().year(None).year, None);
}

#[test]
fn artist_finds_first_album_by_name() {
    let mut artist = Artist::default().name("Someone");
    assert_eq!(artist.name, "Someone");
    assert_eq!(artist.get_album_index("All Albums"), None);
    artist.albums.push(Album::default().name("All Albums"));
    artist.albums.push(Album::default().name("B"));
    artist.albums.push(Album::default().name("C"));
    artist.albums.push(Album::default().name("B"));
    assert_eq!(artist.get_album_index("All Albums"), Some(0));
    assert_eq!(artist.get_album_index("B"), Some(1));
    assert_eq!(artist.get_album_index("C"), Some(2));
    assert_eq!(artist.get_album_index("b"), None);
    assert_eq!(artist.clone().name("Other").albums.len(), 4);
}
