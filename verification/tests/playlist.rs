use rmup::library::track::Track;
use rmup::library::Library;
use rmup::playlist::{
    check_header, line_kind, parse_extinf, parse_lines, split_at_whitespace, LineKind, Playlist,
    PlaylistError, Reading,
};
use rmup::time::Duration;
use rmup::traits::{Load, Save};

fn lines(text: &[&str]) -> Vec<String> {
    text.iter().map(|l| (*l).to_owned()).collect()
}

fn song() -> Track {
    Track {
        title: Some("Song, the first".to_owned()),
        artist: "Someone".to_owned(),
        album: "Something".to_owned(),
        year: Some(1999),
        number: Some(7),
        length: Duration::from_millis(185_900),
        file_path: "/music/song.flac".to_owned(),
    }
}

fn bare() -> Track {
    Track {
        title: None,
        artist: "Unknown".to_owned(),
        album: "Unknown".to_owned(),
        year: None,
        number: None,
        length: Duration::zero(),
        file_path: "bare.mp3".to_owned(),
    }
}

#[test]
fn new_playlist_is_empty() {
    let playlist = Playlist::new("mine");
    assert_eq!(playlist.name, "mine");
    assert!(playlist.tracks.is_empty());
}

#[test]
fn add_moves_tracks() {
    let mut playlist = Playlist::new("mine");
    playlist.add(&mut vec![song()]);
    let mut more = vec![bare(), song()];
    playlist.add(&mut more);
    assert!(more.is_empty());
    assert_eq!(playlist.tracks, vec![song(), bare(), song()]);
    assert_eq!(playlist.clone().tracks, playlist.tracks);
}

#[test]
fn playlist_is_saved_as_m3u() {
    let mut playlist = Playlist::new("mine");
    playlist.add(&mut vec![song(), bare()]);
    assert_eq!(
        playlist.save(),
        "#EXTM3U\n#PLAYLIST:mine\n\
         #EXTART:Someone\n#EXTALB:Something\n#EXTINF:185 year=1999 number=7,Song, the first\n/music/song.flac\n\
         #EXTART:Unknown\n#EXTALB:Unknown\n#EXTINF:0,\nbare.mp3\n"
    );
    assert_eq!(Playlist::new("").save(), "#EXTM3U\n#PLAYLIST:\n");
}

#[test]
fn saved_playlist_loads_again() {
    let mut playlist = Playlist::new("mine");
    playlist.add(&mut vec![song(), bare()]);
    let text = playlist.save();
    let loaded = Playlist::load(&text.lines().map(|l| l.to_owned()).collect()).unwrap();
    assert_eq!(loaded.name, "mine");
    let mut first = song();
    first.length = Duration::from_secs(185);
    let mut second = bare();
    second.title = Some(String::new());
    assert_eq!(loaded.tracks, vec![first, second]);
}

#[test]
fn header_is_checked() {
    assert_eq!(check_header("#EXTM3U"), Ok(()));
    assert_eq!(check_header("#EXTM3U "), Err(PlaylistError::InvalidHeader("#EXTM3U ".to_owned())));
    assert_eq!(check_header(""), Err(PlaylistError::InvalidHeader(String::new())));
    assert_eq!(Playlist::load(&lines(&[])).unwrap_err(), PlaylistError::InvalidFile);
    assert_eq!(
        Playlist::load(&lines(&["#PLAYLIST:x"])).unwrap_err(),
        PlaylistError::InvalidHeader("#PLAYLIST:x".to_owned())
    );
}

#[test]
fn nameless_playlist_is_untitled() {
    let loaded = Playlist::load(&lines(&["#EXTM3U", "a.mp3"])).unwrap();
    assert_eq!(loaded.name, "Untitled");
    assert_eq!(loaded.tracks.len(), 1);
    assert_eq!(loaded.tracks[0].file_path, "a.mp3");
    let loaded = Playlist::load(&lines(&["#EXTM3U", "#PLAYLIST:"])).unwrap();
    assert_eq!(loaded.name, "Untitled");
    let loaded = Playlist::load(&lines(&["#EXTM3U", "#PLAYLIST:a:b"])).unwrap();
    assert_eq!(loaded.name, "a:b");
}

#[test]
fn lines_are_told_apart() {
    assert_eq!(line_kind("#PLAYLIST:x"), LineKind::Playlist);
    assert_eq!(line_kind("#EXTART:x"), LineKind::Artist);
    assert_eq!(line_kind("#EXTALB:"), LineKind::Album);
    assert_eq!(line_kind("#EXTINF:12,title"), LineKind::Info);
    assert_eq!(line_kind("#EXTINF:,"), LineKind::Info);
    assert_eq!(line_kind("#EXTINF:12 year=1,t"), LineKind::Info);
    assert_eq!(line_kind("#EXTINF:12 ,t"), LineKind::Comment);
    assert_eq!(line_kind("#EXTINF:12 y"), LineKind::Comment);
    assert_eq!(line_kind("#EXTINF:12"), LineKind::Comment);
    assert_eq!(line_kind("#EXTINF:12x,t"), LineKind::Comment);
    assert_eq!(line_kind("#EXTINF:-1,t"), LineKind::Comment);
    assert_eq!(line_kind("#EXTINF"), LineKind::Comment);
    assert_eq!(line_kind("#"), LineKind::Comment);
    assert_eq!(line_kind("# anything"), LineKind::Comment);
    assert_eq!(line_kind(" #EXTART:x"), LineKind::Path);
    assert_eq!(line_kind(""), LineKind::Path);
    assert_eq!(line_kind("/music/a.flac"), LineKind::Path);
}

#[test]
fn text_is_split_at_each_white_space() {
    assert_eq!(split_at_whitespace(""), vec![String::new()]);
    assert_eq!(split_at_whitespace("12"), vec!["12".to_owned()]);
    assert_eq!(split_at_whitespace("12 a=b\tc"), vec!["12".to_owned(), "a=b".to_owned(), "c".to_owned()]);
    assert_eq!(split_at_whitespace(" a  "), vec![String::new(), "a".to_owned(), String::new(), String::new()]);
}

#[test]
fn details_are_keys_and_values() {
    let info = parse_extinf("185 year=1999 number=7,Song, the first", 3).unwrap();
    assert_eq!(info.get("title"), Some("Song, the first".to_owned()));
    assert_eq!(info.get("duration"), Some("185".to_owned()));
    assert_eq!(info.get("year"), Some("1999".to_owned()));
    assert_eq!(info.get("number"), Some("7".to_owned()));
    assert_eq!(info.get("genre"), None);
    let info = parse_extinf(",", 3).unwrap();
    assert_eq!(info.get("title"), Some(String::new()));
    assert_eq!(info.get("duration"), Some(String::new()));
    let info = parse_extinf("1 a=b=c a=d title=other,t", 3).unwrap();
    assert_eq!(info.get("a"), Some("d".to_owned()));
    assert_eq!(info.get("title"), Some("other".to_owned()));
}

#[test]
fn malformed_details_are_errors() {
    assert_eq!(
        parse_extinf("185 year=1999", 4).unwrap_err(),
        PlaylistError::MissingComma { line: 4, text: "185 year=1999".to_owned() }
    );
    assert_eq!(
        parse_extinf("185 year,t", 5).unwrap_err(),
        PlaylistError::NotKeyValue { line: 5, property: "year".to_owned() }
    );
    assert_eq!(
        parse_extinf("185  year=1,t", 5).unwrap_err(),
        PlaylistError::NotKeyValue { line: 5, property: String::new() }
    );
    assert_eq!(
        parse_extinf("1 a=1 b c,t", 6).unwrap_err(),
        PlaylistError::NotKeyValue { line: 6, property: "b".to_owned() }
    );
}

#[test]
fn playlist_errors_have_messages() {
    assert_eq!(PlaylistError::InvalidFile.message("a.m3u8"), "a.m3u8: Invalid m3u8 file");
    assert_eq!(
        PlaylistError::InvalidHeader("x".to_owned()).message("a.m3u8"),
        "a.m3u8: Invalid m3u8 header: 'x'"
    );
    assert_eq!(
        PlaylistError::MissingComma { line: 12, text: "185".to_owned() }.message("a"),
        "Error parsing #EXTINF on line 12: missing comma: '185'"
    );
    assert_eq!(
        PlaylistError::NotKeyValue { line: 0, property: "year".to_owned() }.message("a"),
        "Error parsing #EXTINF on line 0: property 'year' is not a key-value pair"
    );
}

#[test]
fn lines_are_read_into_tracks() {
    let reading = parse_lines(&lines(&[
        "#EXTM3U",
        "#PLAYLIST:mine",
        "# a comment",
        "#EXTART:Someone",
        "#EXTALB:Something",
        "#EXTINF:185 year=1999 number=7,Song, the first",
        "/music/song.flac",
        "bare.mp3",
        "#EXTINF: year=y number=+3,",
        "",
    ]))
    .unwrap();
    assert_eq!(reading.name, "mine");
    let mut first = song();
    first.length = Duration::from_secs(185);
    let mut last = bare();
    last.title = Some(String::new());
    last.number = Some(3);
    last.file_path = String::new();
    assert_eq!(reading.tracks, vec![first, bare(), last]);
}

#[test]
fn later_details_replace_earlier_ones() {
    let reading = parse_lines(&lines(&[
        "#EXTM3U",
        "#EXTINF:10 year=1990 number=2,one",
        "#EXTINF: year=4294967296,two",
        "a.mp3",
    ]))
    .unwrap();
    let t = &reading.tracks[0];
    assert_eq!(t.title, Some("two".to_owned()));
    assert_eq!(t.length, Duration::from_secs(10));
    assert_eq!(t.year, Some(1990));
    assert_eq!(t.number, Some(2));
}

#[test]
fn first_bad_line_ends_reading() {
    let outcome = parse_lines(&lines(&["#EXTM3U", "a.mp3", "#EXTINF:1 x,t", "#EXTINF:1 y,t"]));
    assert_eq!(
        outcome.unwrap_err(),
        PlaylistError::NotKeyValue { line: 2, property: "x".to_owned() }
    );
}

#[test]
fn first_line_is_not_read_as_content() {
    let reading = parse_lines(&lines(&["first.mp3", "second.mp3"])).unwrap();
    assert_eq!(reading.tracks.len(), 1);
    assert_eq!(reading.tracks[0].file_path, "second.mp3");
    assert!(parse_lines(&lines(&[])).unwrap().tracks.is_empty());
}

#[test]
fn reading_takes_lines_one_by_one() {
    let reading = Reading::new();
    let reading = reading.accept("#EXTART:Someone", 1).unwrap();
    assert_eq!(reading.artist, Some("Someone".to_owned()));
    let reading = reading.accept("x.mp3", 2).unwrap();
    assert_eq!(reading.artist, None);
    assert_eq!(reading.tracks[0].artist, "Someone");
    assert_eq!(reading.tracks[0].album, "Unknown");
}

#[test]
fn library_starts_empty() {
    let library = Library::new();
    assert_eq!(library.tracks.name, "Library");
    assert!(library.tracks.tracks.is_empty());
    assert!(!library.knows("/music/a.mp3"));
}

#[test]
fn library_reads_each_audio_file_once() {
    let mut library = Library::new();
    assert!(library.register("/music/a.mp3", Some("mp3")));
    assert!(library.knows("/music/a.mp3"));
    assert!(!library.register("/music/a.mp3", Some("mp3")));
    assert!(!library.register("/music/cover.jpg", Some("jpg")));
    assert!(library.knows("/music/cover.jpg"));
    assert!(!library.register("/music/README", None));
    assert!(!library.register("/music/b.MP3", Some("MP3")));
    for ext in ["mp3", "flac", "aiff", "m4a", "ogg", "opus", "aac", "wav"] {
        assert!(library.register(&format!("/music/x.{ext}"), Some(ext)));
    }
    assert!(library.clone().knows("/music/x.wav"));
}

#[test]
fn library_is_kept_as_playlist() {
    let mut library = Library::new();
    library.tracks.tracks.push(bare());
    let text = library.save();
    assert_eq!(text, "#EXTM3U\n#PLAYLIST:Library\n#EXTART:Unknown\n#EXTALB:Unknown\n#EXTINF:0,\nbare.mp3\n");
    let loaded = Library::load(&text.lines().map(|l| l.to_owned()).collect()).unwrap();
    assert_eq!(loaded.tracks.name, "Library");
    assert!(loaded.knows("bare.mp3"));
    assert!(!loaded.knows("other.mp3"));
    assert_eq!(Library::load(&lines(&["nope"])).unwrap_err(), PlaylistError::InvalidHeader("nope".to_owned()));
}
