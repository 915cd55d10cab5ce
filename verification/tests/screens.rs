use rmup::command::Command;
use rmup::library::track::Track;
use rmup::library::Library;
use rmup::media_system::PlaybackStatus::{Paused, Playing, Stopped};
use rmup::media_system::{MediaSystem, Queueable, Repeat};
use rmup::playlist::Playlist;
use rmup::time::Duration;
use rmup::ui::help_screen::{display_keys, get_command_keys, HelpScreen, KeyBinding};
use rmup::ui::labels::{album_row, playback_info, playback_label, share_of_width, track_row, write_two_digits};
use rmup::ui::main_screen::{MainScreen, Panel};
use rmup::ui::playlist_screen::Panel::{Playlists, Tracks};
use rmup::ui::playlist_screen::PlaylistScreen;
use rmup::ui::MovementDirection::{Bottom, Next, Prev, Top};
use rmup::ui::{choose_tracks, get_key_command, ScreenEnum, UIList, UI};
use rmup::util::{is_too_wide, padding_needed, to_width};
use rmup::{EntryKey, KeyAction, Mode};

fn song(artist: &str, album: &str, title: &str) -> Track {
    Track {
        title: Some(title.to_owned()),
        artist: artist.to_owned(),
        album: album.to_owned(),
        year: Some(1999),
        number: None,
        length: Duration::from_secs(185),
        file_path: format!("/m/{title}.mp3"),
    }
}

fn library() -> Library {
    let mut library = Library::new();
    library.tracks.tracks = vec![song("B", "Two", "b1"), song("A", "One", "a1"), song("A", "One", "a2")];
    library
}

fn titles(tracks: &[Track]) -> Vec<String> {
    tracks.iter().map(|t| t.display_name()).collect()
}

fn queued(queueable: &Queueable) -> Vec<String> {
    titles(&queueable.get_tracks())
}

#[test]
fn text_is_fitted_to_width() {
    assert_eq!(to_width("abc", 6, false), "abc   ");
    assert_eq!(to_width("abc", 6, true), "   abc");
    assert_eq!(to_width("abc", 5, false), "abc  ");
    assert_eq!(to_width("abcd", 5, false), "...  ");
    assert_eq!(to_width("abcdefghij", 8, false), "abc...  ");
    assert_eq!(to_width("abcdefghij", 8, true), "  abc...");
    assert_eq!(to_width("abcdefghij", 12, false), "abcdefghij  ");
    assert_eq!(to_width("abcdefghij", 11, false), "abcdef...  ");
    assert_eq!(to_width("", 3, false), "   ");
    assert_eq!(to_width("", 1, false), "...");
    assert_eq!(to_width("", 0, true), "...");
    assert_eq!(to_width("ab", 2, false), "...");
    assert_eq!(to_width("\u{65e5}\u{672c}\u{8a9e}", 8, false), "\u{65e5}\u{672c}\u{8a9e}  ");
    assert_eq!(to_width("\u{65e5}\u{672c}\u{8a9e}\u{65e5}\u{672c}", 10, false), "\u{65e5}\u{672c}...   ");
}

#[test]
fn width_decisions_are_exact() {
    assert!(is_too_wide(0, 0));
    assert!(is_too_wide(0, 1));
    assert!(!is_too_wide(0, 2));
    assert!(is_too_wide(4, 5));
    assert!(!is_too_wide(3, 5));
    assert!(is_too_wide(usize::MAX, 3));
    assert_eq!(padding_needed(3, 5), 2);
    assert_eq!(padding_needed(5, 5), 0);
    assert_eq!(padding_needed(6, 5), 0);
}

#[test]
fn lists_keep_selection_in_range() {
    let mut list = UIList::new(vec![1, 2, 3]);
    assert_eq!(list.selected, Some(0));
    list.switch_item(Prev);
    assert_eq!(list.selected, Some(2));
    list.switch_item(Next);
    assert_eq!(list.selected, Some(0));
    list.switch_item(Bottom);
    assert_eq!(list.selected_place(), 2);
    list.replace(vec![7, 8]);
    assert_eq!(list.selected, Some(1));
    assert_eq!(list.list, vec![7, 8]);
    list.replace(vec![]);
    assert_eq!(list.selected, None);
    assert_eq!(list.selected_place(), 0);
    list.switch_item(Next);
    assert_eq!(list.selected, None);
    list.replace(vec![9, 9, 9]);
    assert_eq!(list.selected, None);
    list.switch_item(Top);
    assert_eq!(list.selected, Some(0));
}

#[test]
fn chosen_track_starts_the_round() {
    let tracks = vec![song("A", "X", "1"), song("A", "X", "2"), song("A", "X", "3")];
    assert_eq!(titles(&choose_tracks(&tracks, 1, true)), ["2"]);
    assert_eq!(titles(&choose_tracks(&tracks, 1, false)), ["2", "3", "1"]);
    assert_eq!(titles(&choose_tracks(&tracks, 0, false)), ["1", "2", "3"]);
    assert_eq!(titles(&choose_tracks(&tracks, 2, false)), ["3", "1", "2"]);
    assert!(choose_tracks(&tracks, 3, false).is_empty());
    assert!(choose_tracks(&Vec::new(), 0, true).is_empty());
}

#[test]
fn main_screen_follows_selection() {
    let mut screen = MainScreen::new(&library());
    assert_eq!(screen.panel, Panel::Artists);
    assert_eq!(screen.artist_list.list.len(), 3);
    assert_eq!(screen.album_list.list.len(), 3);
    assert_eq!(titles(&screen.track_list.list), ["b1", "a1", "a2"]);
    assert_eq!(queued(&screen.get_selected(false)), ["b1", "a1", "a2"]);
    screen.switch_item(Next);
    screen.update_lists();
    assert_eq!(screen.artist_list.list[1].name, "A");
    assert_eq!(screen.album_list.list.len(), 2);
    assert_eq!(titles(&screen.track_list.list), ["a1", "a2"]);
    assert!(matches!(screen.get_selected(false), Queueable::Artist(_)));
    screen.switch_panel(Next);
    assert_eq!(screen.panel, Panel::Albums);
    screen.switch_item(Bottom);
    screen.update_lists();
    assert_eq!(screen.album_list.selected, Some(1));
    assert!(matches!(screen.get_selected(false), Queueable::Album(_)));
    assert_eq!(queued(&screen.get_selected(false)), ["a1", "a2"]);
    screen.switch_panel(Next);
    assert_eq!(screen.panel, Panel::Tracks);
    screen.switch_item(Next);
    assert_eq!(queued(&screen.get_selected(true)), ["a2"]);
    assert_eq!(queued(&screen.get_selected(false)), ["a2", "a1"]);
    screen.switch_panel(Next);
    assert_eq!(screen.panel, Panel::Artists);
    screen.switch_panel(Prev);
    assert_eq!(screen.panel, Panel::Tracks);
    screen.switch_panel(Top);
    assert_eq!(screen.panel, Panel::Tracks);
    assert_eq!(Panel::Albums.switch(Prev), Panel::Artists);
    assert_eq!(Panel::Artists.switch(Prev), Panel::Tracks);
}

#[test]
fn main_screen_clamps_selection() {
    let mut screen = MainScreen::new(&library());
    screen.switch_panel(Next);
    screen.switch_item(Bottom);
    assert_eq!(screen.album_list.selected, Some(2));
    screen.switch_panel(Prev);
    screen.switch_item(Bottom);
    screen.update_lists();
    assert_eq!(screen.artist_list.list[2].name, "B");
    assert_eq!(screen.album_list.selected, Some(1));
    assert_eq!(titles(&screen.track_list.list), ["b1"]);
    assert_eq!(screen.track_list.selected, Some(0));
    screen.artist_list.selected = Some(9);
    screen.update_lists();
    assert!(screen.album_list.list.is_empty());
    assert_eq!(screen.album_list.selected, None);
    assert!(screen.track_list.list.is_empty());
    assert_eq!(screen.track_list.selected, None);
    assert!(matches!(screen.get_selected(false), Queueable::Empty));
}

fn playlists() -> Vec<Playlist> {
    let mut first = Playlist::new("first");
    first.add(&mut vec![song("A", "X", "1"), song("A", "X", "2")]);
    vec![first, Playlist::new("second")]
}

#[test]
fn playlist_screen_follows_selection() {
    let mut screen = PlaylistScreen::new(&playlists());
    assert_eq!(titles(&screen.track_list.list), ["1", "2"]);
    assert!(matches!(screen.get_selected(false), Queueable::Playlist(_)));
    assert_eq!(queued(&screen.get_selected(false)), ["1", "2"]);
    screen.switch_panel(Next);
    screen.switch_item(Prev);
    assert_eq!(screen.track_list.selected, Some(1));
    assert_eq!(queued(&screen.get_selected(false)), ["2", "1"]);
    assert_eq!(queued(&screen.get_selected(true)), ["2"]);
    screen.switch_panel(Prev);
    screen.switch_item(Next);
    screen.update_lists();
    assert!(screen.track_list.list.is_empty());
    assert_eq!(screen.track_list.selected, None);
    screen.add_playlist(&Playlist::new("third"));
    assert_eq!(screen.playlist_list.list.len(), 3);
    let empty = PlaylistScreen::new(&Vec::new());
    assert!(empty.track_list.list.is_empty());
    assert!(matches!(empty.get_selected(false), Queueable::Empty));
}

fn bindings() -> Vec<KeyBinding> {
    vec![
        KeyBinding { key: "k".to_owned(), command: Command::Up },
        KeyBinding { key: "Up".to_owned(), command: Command::Up },
        KeyBinding { key: "1".to_owned(), command: Command::GotoScreen(ScreenEnum::Main) },
        KeyBinding { key: "F1".to_owned(), command: Command::GotoScreen(ScreenEnum::Help) },
        KeyBinding { key: "n".to_owned(), command: Command::NewPlaylist(None) },
        KeyBinding { key: "N".to_owned(), command: Command::NewPlaylist(Some("x".to_owned())) },
        KeyBinding { key: "q".to_owned(), command: Command::Quit },
    ]
}

#[test]
fn keys_are_listed_by_command() {
    let b = bindings();
    assert_eq!(get_command_keys(&b, &Command::Up), ["k", "Up"]);
    assert_eq!(get_command_keys(&b, &Command::GotoScreen(ScreenEnum::Help)), ["F1"]);
    assert_eq!(get_command_keys(&b, &Command::NewPlaylist(None)), ["n"]);
    assert!(get_command_keys(&b, &Command::Down).is_empty());
    assert_eq!(display_keys(&vec!["k".to_owned(), "Up".to_owned(), "x".to_owned()]), "k, Up, x");
    assert_eq!(display_keys(&vec!["k".to_owned()]), "k");
    assert_eq!(display_keys(&Vec::new()), "");
    assert!(Command::AddPath("a".to_owned()).same_as(&Command::AddPath("a".to_owned())));
    assert!(!Command::AddPath("a".to_owned()).same_as(&Command::PlayTrack("a".to_owned())));
    assert!(!Command::Play.same_as(&Command::Pause));
}

#[test]
fn help_text_lists_keys() {
    let help = HelpScreen::new(&bindings());
    assert_eq!(
        help.help_page,
        "Up:                k, Up\n\
         Down:              \n\
         Play/Pause:        \n\
         Previous track:    \n\
         Next track:        \n\
         Enqueue:           \n\
         Repeat:            \n\
         Shuffle:           \n\
         Goto top:          \n\
         Goto bottom:       \n\
         Next panel:        \n\
         Previous panel:    \n\
         Main screen:       1\n\
         Playlist screen:   \n\
         Help screen:       F1\n\
         New playlist:      n (Playlist screen only)\n\
         Select playlist:    (Playlist screen only)\n\
         Add to playlist:   \n\
         Quit:              q"
    );
}

#[test]
fn keys_depend_on_screen_and_panel() {
    assert_eq!(get_key_command(None, ScreenEnum::Main, Playlists), Command::Nop);
    assert_eq!(get_key_command(Some(Command::Up), ScreenEnum::Help, Tracks), Command::Up);
    assert_eq!(get_key_command(Some(Command::SelectPlaylist), ScreenEnum::Playlists, Playlists), Command::SelectPlaylist);
    assert_eq!(get_key_command(Some(Command::SelectPlaylist), ScreenEnum::Playlists, Tracks), Command::Nop);
    assert_eq!(get_key_command(Some(Command::SelectPlaylist), ScreenEnum::Main, Playlists), Command::Nop);
    assert_eq!(get_key_command(Some(Command::PlaylistAdd), ScreenEnum::Playlists, Playlists), Command::Nop);
    assert_eq!(get_key_command(Some(Command::PlaylistAdd), ScreenEnum::Playlists, Tracks), Command::PlaylistAdd);
    assert_eq!(get_key_command(Some(Command::PlaylistAdd), ScreenEnum::Main, Playlists), Command::PlaylistAdd);
}

#[test]
fn interface_adds_selection_to_playlist() {
    let mut ui = UI::new(&library(), &bindings(), &playlists());
    assert_eq!(ui.screen, ScreenEnum::Main);
    assert_eq!(ui.add_selected_to_playlist(), "Select a playlist to add tracks");
    assert!(ui.selected_playlist().is_none());
    assert_eq!(ui.playlist_names(), ["first", "second"]);
    ui.switch_screen(ScreenEnum::Playlists);
    ui.switch_item(Next);
    ui.update_lists();
    ui.select_current_playlist();
    assert_eq!(ui.selected_playlist_index, Some(1));
    assert_eq!(ui.selected_playlist().unwrap().name, "second");
    assert_eq!(ui.playlist_names(), ["first", "*second"]);
    assert_eq!(ui.get_key_command(Some(Command::PlaylistAdd)), Command::Nop);
    ui.switch_screen(ScreenEnum::Main);
    assert_eq!(ui.get_key_command(Some(Command::PlaylistAdd)), Command::PlaylistAdd);
    assert_eq!(ui.add_selected_to_playlist(), "Added 3 tracks to second");
    assert_eq!(titles(&ui.selected_playlist().unwrap().tracks), ["b1", "a1", "a2"]);
    ui.switch_panel(Prev);
    ui.switch_item(Next);
    assert_eq!(ui.add_selected_to_playlist(), "Added \"a1\" to second");
    assert_eq!(ui.selected_playlist().unwrap().tracks.len(), 4);
    ui.selected_playlist_index = Some(5);
    assert_eq!(ui.add_selected_to_playlist(), "Error: selected playlist index does not exist");
    assert!(ui.selected_playlist().is_none());
    ui.switch_screen(ScreenEnum::Help);
    assert!(matches!(ui.get_selected(false), Queueable::Empty));
    ui.switch_item(Next);
    ui.switch_panel(Next);
    ui.update_lists();
    ui.add_playlist(&Playlist::new("third"));
    assert_eq!(ui.playlist_names().len(), 3);
    let mut other = Library::new();
    other.tracks.tracks.push(song("Z", "Z", "z"));
    ui.update_library(other);
    assert_eq!(titles(&ui.main_screen.track_list.list), ["z"]);
    assert_eq!(ui.library.tracks.tracks.len(), 1);
}

#[test]
fn playback_is_labelled() {
    let mut engine = MediaSystem::new(true);
    assert_eq!(playback_label(engine.state()), "--:--/--:--");
    assert_eq!(playback_info(engine.state(), false), " - - - | Not Playing");
    assert_eq!(playback_info(engine.state(), true), " \u{f0457} \u{f049e} \u{f03e4} | Not Playing");
    engine.play_track(&song("A", "X", "Title"), true, true);
    engine.update_progress(Duration::from_millis(65_999), false);
    assert_eq!(playback_label(engine.state()), "01:05/03:05");
    assert_eq!(playback_info(engine.state(), false), " - - > | Title");
    engine.set_repeat(Repeat::One);
    engine.set_shuffle(true);
    assert_eq!(playback_info(engine.state(), false), " 1 S > | Title");
    assert_eq!(playback_info(engine.state(), true), " \u{f0458} \u{f049d} \u{f040a} | Title");
    engine.set_repeat(Repeat::All);
    engine.pause();
    assert_eq!(playback_info(engine.state(), false), " R S - | Title");
    assert_eq!(playback_info(engine.state(), true), " \u{f0456} \u{f049d} \u{f03e4} | Title");
    let mut long = song("A", "X", "Long");
    long.length = Duration::from_secs(6000);
    long.title = None;
    engine.play_track(&long, true, true);
    assert_eq!(playback_label(engine.state()), "00:00/100:00");
    assert_eq!(playback_info(engine.state(), false), " R S > | /m/Long.mp3");
    assert_eq!(write_two_digits(0), "00");
    assert_eq!(write_two_digits(9), "09");
    assert_eq!(write_two_digits(10), "10");
}

#[test]
fn rows_fill_their_columns() {
    assert_eq!((0..5).map(|c| share_of_width(78, c)).collect::<Vec<_>>(), [16, 16, 16, 15, 15]);
    assert_eq!((0..5).map(|c| share_of_width(80, c)).collect::<Vec<_>>(), [16; 5]);
    assert_eq!((0..5).map(|c| share_of_width(4, c)).collect::<Vec<_>>(), [1, 1, 1, 1, 0]);
    let row = track_row(&song("Artist", "Album", "Title"), 52);
    assert_eq!(row, "Title      Artist     Album           1999      3:05");
    let mut album = rmup::library::album::Album::default().name("Album").year(Some(1999));
    assert_eq!(album_row(&album, 40), "Album         1999");
    album.year = None;
    assert_eq!(album_row(&album, 40), "Album         ");
    assert_eq!(album_row(&album, 10), "...");
}

#[test]
fn status_follows_flags() {
    let mut engine = MediaSystem::new(true);
    assert_eq!(engine.state().playback_status(), Paused);
    engine.play_track(&song("A", "X", "T"), true, false);
    assert_eq!(engine.state().playback_status(), Playing);
    engine.pause();
    assert_eq!(engine.state().playback_status(), Stopped);
    engine.play();
    assert_eq!(engine.state().playback_status(), Playing);
    engine.pause();
    assert_eq!(engine.state().playback_status(), Paused);
}

#[test]
fn modes_decide_what_keys_do() {
    assert_eq!(Mode::Normal.on_key(EntryKey::Enter), (KeyAction::Command, Mode::Normal));
    assert_eq!(Mode::Normal.on_key(EntryKey::Esc), (KeyAction::Command, Mode::Normal));
    assert_eq!(Mode::PlaylistEntry.on_key(EntryKey::Enter), (KeyAction::CreatePlaylist, Mode::Normal));
    assert_eq!(Mode::CommandEntry.on_key(EntryKey::Enter), (KeyAction::RunCommandLine, Mode::Normal));
    assert_eq!(Mode::PlaylistEntry.on_key(EntryKey::Esc), (KeyAction::Cancel, Mode::Normal));
    assert_eq!(Mode::CommandEntry.on_key(EntryKey::Esc), (KeyAction::Cancel, Mode::Normal));
    assert_eq!(Mode::PlaylistEntry.on_key(EntryKey::Other), (KeyAction::Edit, Mode::PlaylistEntry));
    assert_eq!(Mode::CommandEntry.on_key(EntryKey::Other), (KeyAction::Edit, Mode::CommandEntry));
    assert_eq!(Mode::Normal.prompt(), "");
    assert_eq!(Mode::PlaylistEntry.prompt(), "New playlist: ");
    assert_eq!(Mode::CommandEntry.prompt(), ":");
    assert!(!Mode::Normal.shows_cursor());
    assert!(Mode::PlaylistEntry.shows_cursor());
    assert!(Mode::CommandEntry.shows_cursor());
}

#[test]
fn interface_commands_move_about() {
    let mut ui = UI::new(&library(), &bindings(), &playlists());
    assert!(ui.apply(&Command::Down));
    assert_eq!(ui.main_screen.artist_list.selected, Some(1));
    assert_eq!(ui.main_screen.album_list.list.len(), 2);
    assert!(ui.apply(&Command::Up));
    assert_eq!(ui.main_screen.artist_list.selected, Some(0));
    assert!(ui.apply(&Command::NextPanel));
    assert_eq!(ui.main_screen.panel, Panel::Albums);
    assert!(ui.apply(&Command::GotoBottom));
    assert_eq!(ui.main_screen.album_list.selected, Some(2));
    assert!(ui.apply(&Command::GotoTop));
    assert_eq!(ui.main_screen.album_list.selected, Some(0));
    assert!(ui.apply(&Command::PrevPanel));
    assert_eq!(ui.main_screen.panel, Panel::Artists);
    assert!(ui.apply(&Command::GotoScreen(ScreenEnum::Playlists)));
    assert_eq!(ui.screen, ScreenEnum::Playlists);
    assert!(ui.apply(&Command::SelectPlaylist));
    assert_eq!(ui.selected_playlist_index, Some(0));
    for command in [Command::Quit, Command::Play, Command::Nop, Command::PlaylistAdd, Command::NewPlaylist(None), Command::AddPath("x".to_owned())] {
        assert!(!ui.apply(&command));
    }
    assert_eq!(ui.screen, ScreenEnum::Playlists);
}

#[test]
fn commands_start_entries() {
    assert_eq!(Mode::Normal.on_command(&Command::NewPlaylist(None)), Mode::PlaylistEntry);
    assert_eq!(Mode::Normal.on_command(&Command::NewPlaylist(Some("x".to_owned()))), Mode::Normal);
    assert_eq!(Mode::Normal.on_command(&Command::EnterCommand), Mode::CommandEntry);
    assert_eq!(Mode::Normal.on_command(&Command::Quit), Mode::Normal);
    assert_eq!(Mode::CommandEntry.on_command(&Command::Play), Mode::CommandEntry);
}
