use rmup::command::{Command, CommandError};
use rmup::ui::ScreenEnum;

#[test]
fn words_spell_commands() {
    for line in ["q", "quit", "exit", "  quit  now"] {
        assert_eq!(Command::parse(line), Ok(Command::Quit));
    }
    for line in ["s", "shuf", "shuffle"] {
        assert_eq!(Command::parse(line), Ok(Command::ToggleShuffle));
    }
    for line in ["r", "rep", "repeat"] {
        assert_eq!(Command::parse(line), Ok(Command::ToggleRepeat));
    }
    for line in ["h", "help"] {
        assert_eq!(Command::parse(line), Ok(Command::GotoScreen(ScreenEnum::Help)));
    }
}

#[test]
fn blank_line_is_nop() {
    assert_eq!(Command::parse(""), Ok(Command::Nop));
    assert_eq!(Command::parse(" \t\u{a0}\u{3000} "), Ok(Command::Nop));
}

#[test]
fn screen_takes_second_word() {
    for line in ["screen 1", "screen main", "screen\t\tmain extra"] {
        assert_eq!(Command::parse(line), Ok(Command::GotoScreen(ScreenEnum::Main)));
    }
    for line in ["screen 2", "screen playlist", "screen playlists"] {
        assert_eq!(Command::parse(line), Ok(Command::GotoScreen(ScreenEnum::Playlists)));
    }
    for line in ["screen 0", "screen help"] {
        assert_eq!(Command::parse(line), Ok(Command::GotoScreen(ScreenEnum::Help)));
    }
    assert_eq!(Command::parse("screen 3"), Err(CommandError::InvalidScreen("3".to_owned())));
    assert_eq!(Command::parse("screen"), Err(CommandError::MissingScreen));
    assert_eq!(Command::parse("screen   "), Err(CommandError::MissingScreen));
}

#[test]
fn arguments_follow_first_space() {
    assert_eq!(Command::parse("add /music/my files"), Ok(Command::AddPath("/music/my files".to_owned())));
    assert_eq!(Command::parse("a  x"), Ok(Command::AddPath(" x".to_owned())));
    assert_eq!(Command::parse("a "), Ok(Command::AddPath(String::new())));
    assert_eq!(Command::parse("add"), Err(CommandError::MissingAddPath));
    assert_eq!(Command::parse("add\t/music"), Err(CommandError::MissingAddPath));
    assert_eq!(Command::parse(" add x"), Ok(Command::AddPath("add x".to_owned())));
    assert_eq!(Command::parse("play a.mp3"), Ok(Command::PlayTrack("a.mp3".to_owned())));
    assert_eq!(Command::parse("p a.mp3"), Ok(Command::PlayTrack("a.mp3".to_owned())));
    assert_eq!(Command::parse("play"), Err(CommandError::MissingPlayPath));
    assert_eq!(Command::parse("new-playlist Road trip"), Ok(Command::NewPlaylist(Some("Road trip".to_owned()))));
    assert_eq!(Command::parse("n x"), Ok(Command::NewPlaylist(Some("x".to_owned()))));
    assert_eq!(Command::parse("n"), Ok(Command::NewPlaylist(None)));
}

#[test]
fn unknown_words_are_rejected() {
    assert_eq!(Command::parse("dance"), Err(CommandError::InvalidCommand("dance".to_owned())));
    assert_eq!(Command::parse("  Quit"), Err(CommandError::InvalidCommand("Quit".to_owned())));
    assert_eq!(Command::parse("qu\u{e9}"), Err(CommandError::InvalidCommand("qu\u{e9}".to_owned())));
}

#[test]
fn command_errors_have_messages() {
    assert_eq!(CommandError::InvalidCommand("dance".to_owned()).message(), "Invalid command: dance");
    assert_eq!(CommandError::InvalidScreen("3".to_owned()).message(), "screen: Invalid screen identifier: 3");
    assert_eq!(CommandError::MissingScreen.message(), "screen: Missing argument SCREEN_ID");
    assert_eq!(CommandError::MissingAddPath.message(), "add: Missing argument PATH");
    assert_eq!(CommandError::MissingPlayPath.message(), "play: Missing argument PATH");
}
