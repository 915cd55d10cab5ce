//! The commands of the player and the command line that spells them.

use crate::text::{char_is_whitespace, is_whitespace};
use crate::ui::ScreenEnum;
use std::collections::VecDeque;
use vstd::prelude::*;
use vstd::string::{StrSliceExecFns, StringExecFns};

verus! {

/// Everything the player can be told to do.
#[derive(Debug, Clone, PartialEq, Eq)]
pub enum Command {
    Quit,
    Down,
    Up,
    NextPanel,
    PrevPanel,
    Play,
    Pause,
    Stop,
    TogglePlay,
    ToggleShuffle,
    ToggleRepeat,
    QueueAndPlay,
    GotoTop,
    GotoBottom,
    GotoScreen(ScreenEnum),
    NewPlaylist(Option<String>),
    PlaylistAdd,
    SelectPlaylist,
    PrevTrack,
    NextTrack,
    EnterCommand,
    /// Add the file or directory at this path to the library.
    AddPath(String),
    /// Play the file at this path.
    PlayTrack(String),
    Nop,
}

/// A [`Command`] with its texts as plain values.
pub enum CommandView {
    Quit,
    Down,
    Up,
    NextPanel,
    PrevPanel,
    Play,
    Pause,
    Stop,
    TogglePlay,
    ToggleShuffle,
    ToggleRepeat,
    QueueAndPlay,
    GotoTop,
    GotoBottom,
    GotoScreen(ScreenEnum),
    NewPlaylist(Option<Seq<char>>),
    PlaylistAdd,
    SelectPlaylist,
    PrevTrack,
    NextTrack,
    EnterCommand,
    AddPath(Seq<char>),
    PlayTrack(Seq<char>),
    Nop,
}

impl View for Command {
    type V = CommandView;

    open spec fn view(&self) -> CommandView {
        match *self {
            Command::Quit => CommandView::Quit,
            Command::Down => CommandView::Down,
            Command::Up => CommandView::Up,
            Command::NextPanel => CommandView::NextPanel,
            Command::PrevPanel => CommandView::PrevPanel,
            Command::Play => CommandView::Play,
            Command::Pause => CommandView::Pause,
            Command::Stop => CommandView::Stop,
            Command::TogglePlay => CommandView::TogglePlay,
            Command::ToggleShuffle => CommandView::ToggleShuffle,
            Command::ToggleRepeat => CommandView::ToggleRepeat,
            Command::QueueAndPlay => CommandView::QueueAndPlay,
            Command::GotoTop => CommandView::GotoTop,
            Command::GotoBottom => CommandView::GotoBottom,
            Command::GotoScreen(screen) => CommandView::GotoScreen(screen),
            Command::NewPlaylist(name) => CommandView::NewPlaylist(
                match name {
                    Some(n) => Some(n@),
                    None => None,
                },
            ),
            Command::PlaylistAdd => CommandView::PlaylistAdd,
            Command::SelectPlaylist => CommandView::SelectPlaylist,
            Command::PrevTrack => CommandView::PrevTrack,
            Command::NextTrack => CommandView::NextTrack,
            Command::EnterCommand => CommandView::EnterCommand,
            Command::AddPath(path) => CommandView::AddPath(path@),
            Command::PlayTrack(path) => CommandView::PlayTrack(path@),
            Command::Nop => CommandView::Nop,
        }
    }
}

/// Why a command line is not a command.
#[derive(Debug, Clone, PartialEq, Eq)]
pub enum CommandError {
    /// The first word is no command.
    InvalidCommand(String),
    /// `screen` is followed by a word that names no screen.
    InvalidScreen(String),
    /// `screen` is followed by nothing.
    MissingScreen,
    /// `add` is followed by nothing.
    MissingAddPath,
    /// `play` is followed by nothing.
    MissingPlayPath,
}

/// A [`CommandError`] with its texts as plain values.
pub enum CommandErrorView {
    InvalidCommand(Seq<char>),
    InvalidScreen(Seq<char>),
    MissingScreen,
    MissingAddPath,
    MissingPlayPath,
}

impl View for CommandError {
    type V = CommandErrorView;

    open spec fn view(&self) -> CommandErrorView {
        match *self {
            CommandError::InvalidCommand(word) => CommandErrorView::InvalidCommand(word@),
            CommandError::InvalidScreen(word) => CommandErrorView::InvalidScreen(word@),
            CommandError::MissingScreen => CommandErrorView::MissingScreen,
            CommandError::MissingAddPath => CommandErrorView::MissingAddPath,
            CommandError::MissingPlayPath => CommandErrorView::MissingPlayPath,
        }
    }
}

impl CommandErrorView {
    /// The error as a line for the user.
    pub open spec fn message(self) -> Seq<char> {
        match self {
            CommandErrorView::InvalidCommand(word) => "Invalid command: "@ + word,
            CommandErrorView::InvalidScreen(word) => "screen: Invalid screen identifier: "@ + word,
            CommandErrorView::MissingScreen => "screen: Missing argument SCREEN_ID"@,
            CommandErrorView::MissingAddPath => "add: Missing argument PATH"@,
            CommandErrorView::MissingPlayPath => "play: Missing argument PATH"@,
        }
    }
}

impl CommandError {
    /// The error as a line for the user.
    pub fn message(&self) -> (text: String)
        ensures
            text@ == self@.message(),
    {
        match self {
            CommandError::InvalidCommand(word) => String::from_str("Invalid command: ").concat(
                word.as_str(),
            ),
            CommandError::InvalidScreen(word) => String::from_str(
                "screen: Invalid screen identifier: ",
            ).concat(word.as_str()),
            CommandError::MissingScreen => String::from_str("screen: Missing argument SCREEN_ID"),
            CommandError::MissingAddPath => String::from_str("add: Missing argument PATH"),
            CommandError::MissingPlayPath => String::from_str("play: Missing argument PATH"),
        }
    }
}

/// The view of the outcome of parsing.
pub open spec fn outcome_view(outcome: Result<Command, CommandError>) -> Result<
    CommandView,
    CommandErrorView,
> {
    match outcome {
        Ok(command) => Ok(command@),
        Err(error) => Err(error@),
    }
}

/// The first place at or after `from` that holds no white space, or the
/// length of `text` when only white space follows.
pub open spec fn word_start(text: Seq<char>, from: int) -> int
    decreases text.len() - from,
{
    if 0 <= from < text.len() && is_whitespace(text[from]) {
        word_start(text, from + 1)
    } else {
        from
    }
}

/// The first place at or after `from` that holds white space, or the length
/// of `text` when none follows.
pub open spec fn word_end(text: Seq<char>, from: int) -> int
    decreases text.len() - from,
{
    if 0 <= from < text.len() && !is_whitespace(text[from]) {
        word_end(text, from + 1)
    } else {
        from
    }
}

/// The first place at or after `from` that holds a space character, or the
/// length of `text` when none follows.
pub open spec fn space_at(text: Seq<char>, from: int) -> int
    decreases text.len() - from,
{
    if 0 <= from < text.len() && text[from] != ' ' {
        space_at(text, from + 1)
    } else {
        from
    }
}

/// The first word of `text` at or after `from`: the longest run of
/// characters that are not white space, after any white space. `None` when
/// only white space follows.
pub open spec fn word_at(text: Seq<char>, from: int) -> Option<Seq<char>> {
    let start = word_start(text, from);
    if start < text.len() {
        Some(text.subrange(start, word_end(text, start)))
    } else {
        None
    }
}

/// What follows the first space character of `text`, if there is one.
pub open spec fn argument(text: Seq<char>) -> Option<Seq<char>> {
    let space = space_at(text, 0);
    if space < text.len() {
        Some(text.subrange(space + 1, text.len() as int))
    } else {
        None
    }
}

/// The screen that the argument of `screen` names.
pub open spec fn parsed_screen(word: Option<Seq<char>>) -> Result<CommandView, CommandErrorView> {
    match word {
        Some(w) => if w == "1"@ || w == "main"@ {
            Ok(CommandView::GotoScreen(ScreenEnum::Main))
        } else if w == "2"@ || w == "playlist"@ || w == "playlists"@ {
            Ok(CommandView::GotoScreen(ScreenEnum::Playlists))
        } else if w == "0"@ || w == "help"@ {
            Ok(CommandView::GotoScreen(ScreenEnum::Help))
        } else {
            Err(CommandErrorView::InvalidScreen(w))
        },
        None => Err(CommandErrorView::MissingScreen),
    }
}

/// The command that a command line spells.
///
/// The first word names the command. `screen` takes the second word as its
/// argument; `add`, `new-playlist` and `play` take everything after the first
/// space character of the line. A line without a word is the command to do
/// nothing.
pub open spec fn parsed(line: Seq<char>) -> Result<CommandView, CommandErrorView> {
    match word_at(line, 0) {
        None => Ok(CommandView::Nop),
        Some(w) => if w == "q"@ || w == "quit"@ || w == "exit"@ {
            Ok(CommandView::Quit)
        } else if w == "s"@ || w == "shuf"@ || w == "shuffle"@ {
            Ok(CommandView::ToggleShuffle)
        } else if w == "r"@ || w == "rep"@ || w == "repeat"@ {
            Ok(CommandView::ToggleRepeat)
        } else if w == "screen"@ {
            parsed_screen(word_at(line, word_end(line, word_start(line, 0))))
        } else if w == "h"@ || w == "help"@ {
            Ok(CommandView::GotoScreen(ScreenEnum::Help))
        } else if w == "a"@ || w == "add"@ {
            match argument(line) {
                Some(path) => Ok(CommandView::AddPath(path)),
                None => Err(CommandErrorView::MissingAddPath),
            }
        } else if w == "new-playlist"@ || w == "n"@ {
            Ok(CommandView::NewPlaylist(argument(line)))
        } else if w == "play"@ || w == "p"@ {
            match argument(line) {
                Some(path) => Ok(CommandView::PlayTrack(path)),
                None => Err(CommandErrorView::MissingPlayPath),
            }
        } else {
            Err(CommandErrorView::InvalidCommand(w))
        },
    }
}

/// Whether `word` spells `text`.
fn is_word(word: &String, text: &str) -> (same: bool)
    ensures
        same == (word@ == text@),
{
    *word == String::from_str(text)
}

/// The places where the first word at or after `from` starts and ends.
fn find_word(line: &str, len: usize, from: usize) -> (bounds: (usize, usize))
    requires
        len == line@.len(),
        from <= len,
    ensures
        bounds.0 == word_start(line@, from as int),
        bounds.1 == word_end(line@, bounds.0 as int),
        from <= bounds.0 <= bounds.1 <= len,
{
    let mut start: usize = from;
    while start < len && char_is_whitespace(line.get_char(start))
        invariant
            from <= start <= len,
            len == line@.len(),
            word_start(line@, from as int) == word_start(line@, start as int),
        decreases len - start,
    {
        start += 1;
    }
    let mut end: usize = start;
    while end < len && !char_is_whitespace(line.get_char(end))
        invariant
            start <= end <= len,
            len == line@.len(),
            word_end(line@, start as int) == word_end(line@, end as int),
        decreases len - end,
    {
        end += 1;
    }
    (start, end)
}

/// What follows the first space character of `line`, if there is one.
fn find_argument(line: &str, len: usize) -> (rest: Option<String>)
    requires
        len == line@.len(),
    ensures
        match rest {
            Some(r) => argument(line@) == Some(r@),
            None => argument(line@) is None,
        },
{
    let mut space: usize = 0;
    while space < len && line.get_char(space) != ' '
        invariant
            space <= len,
            len == line@.len(),
            space_at(line@, 0) == space_at(line@, space as int),
        decreases len - space,
    {
        space += 1;
    }
    if space < len {
        Some(line.substring_char(space + 1, len).to_owned())
    } else {
        None
    }
}

impl Command {
    /// The command that a command line spells.
    pub fn parse(command: &str) -> (outcome: Result<Command, CommandError>)
        ensures
            outcome_view(outcome) == parsed(command@),
    {
        let len = command.unicode_len();
        let (start, end) = find_word(command, len, 0);
        if start == len {
            return Ok(Command::Nop);
        }
        let word = command.substring_char(start, end).to_owned();
        if is_word(&word, "q") || is_word(&word, "quit") || is_word(&word, "exit") {
            Ok(Command::Quit)
        } else if is_word(&word, "s") || is_word(&word, "shuf") || is_word(&word, "shuffle") {
            Ok(Command::ToggleShuffle)
        } else if is_word(&word, "r") || is_word(&word, "rep") || is_word(&word, "repeat") {
            Ok(Command::ToggleRepeat)
        } else if is_word(&word, "screen") {
            let (second_start, second_end) = find_word(command, len, end);
            if second_start == len {
                return Err(CommandError::MissingScreen);
            }
            let screen = command.substring_char(second_start, second_end).to_owned();
            if is_word(&screen, "1") || is_word(&screen, "main") {
                Ok(Command::GotoScreen(ScreenEnum::Main))
            } else if is_word(&screen, "2") || is_word(&screen, "playlist") || is_word(
                &screen,
                "playlists",
            ) {
                Ok(Command::GotoScreen(ScreenEnum::Playlists))
            } else if is_word(&screen, "0") || is_word(&screen, "help") {
                Ok(Command::GotoScreen(ScreenEnum::Help))
            } else {
                Err(CommandError::InvalidScreen(screen))
            }
        } else if is_word(&word, "h") || is_word(&word, "help") {
            Ok(Command::GotoScreen(ScreenEnum::Help))
        } else if is_word(&word, "a") || is_word(&word, "add") {
            match find_argument(command, len) {
                Some(path) => Ok(Command::AddPath(path)),
                None => Err(CommandError::MissingAddPath),
            }
        } else if is_word(&word, "new-playlist") || is_word(&word, "n") {
            Ok(Command::NewPlaylist(find_argument(command, len)))
        } else if is_word(&word, "play") || is_word(&word, "p") {
            match find_argument(command, len) {
                Some(path) => Ok(Command::PlayTrack(path)),
                None => Err(CommandError::MissingPlayPath),
            }
        } else {
            Err(CommandError::InvalidCommand(word))
        }
    }
}

/// Whether two optional texts hold the same text.
fn same_text(a: &Option<String>, b: &Option<String>) -> (same: bool)
    ensures
        same == (match (*a, *b) {
            (Some(x), Some(y)) => x@ == y@,
            (None, None) => true,
            _ => false,
        }),
{
    match (a, b) {
        (Some(x), Some(y)) => *x == *y,
        (None, None) => true,
        _ => false,
    }
}

impl Command {
    /// Whether `self` and `other` are the same command with the same
    /// arguments.
    pub fn same_as(&self, other: &Command) -> (same: bool)
        ensures
            same == (self@ == other@),
    {
        match (self, other) {
            (Command::Quit, Command::Quit) => true,
            (Command::Down, Command::Down) => true,
            (Command::Up, Command::Up) => true,
            (Command::NextPanel, Command::NextPanel) => true,
            (Command::PrevPanel, Command::PrevPanel) => true,
            (Command::Play, Command::Play) => true,
            (Command::Pause, Command::Pause) => true,
            (Command::Stop, Command::Stop) => true,
            (Command::TogglePlay, Command::TogglePlay) => true,
            (Command::ToggleShuffle, Command::ToggleShuffle) => true,
            (Command::ToggleRepeat, Command::ToggleRepeat) => true,
            (Command::QueueAndPlay, Command::QueueAndPlay) => true,
            (Command::GotoTop, Command::GotoTop) => true,
            (Command::GotoBottom, Command::GotoBottom) => true,
            (Command::GotoScreen(a), Command::GotoScreen(b)) => *a == *b,
            (Command::NewPlaylist(a), Command::NewPlaylist(b)) => same_text(a, b),
            (Command::PlaylistAdd, Command::PlaylistAdd) => true,
            (Command::SelectPlaylist, Command::SelectPlaylist) => true,
            (Command::PrevTrack, Command::PrevTrack) => true,
            (Command::NextTrack, Command::NextTrack) => true,
            (Command::EnterCommand, Command::EnterCommand) => true,
            (Command::AddPath(a), Command::AddPath(b)) => *a == *b,
            (Command::PlayTrack(a), Command::PlayTrack(b)) => *a == *b,
            (Command::Nop, Command::Nop) => true,
            _ => false,
        }
    }
}

/// The views of a sequence of commands, in the same order.
pub open spec fn command_views(commands: Seq<Command>) -> Seq<CommandView> {
    commands.map_values(|c: Command| c@)
}

/// The commands that wait to be carried out, in the order in which they
/// came in.
#[derive(Debug)]
pub struct CommandQueue {
    commands: VecDeque<Command>,
}

impl View for CommandQueue {
    type V = Seq<CommandView>;

    closed spec fn view(&self) -> Seq<CommandView> {
        command_views(self.commands@)
    }
}

impl CommandQueue {
    /// A queue in which no command waits.
    pub fn new() -> (queue: Self)
        ensures
            queue@ == Seq::<CommandView>::empty(),
    {
        let queue = CommandQueue { commands: VecDeque::new() };
        assert(command_views(queue.commands@) =~= Seq::empty());
        queue
    }

    /// Puts a command at the end of the queue. The command to do nothing is
    /// not kept.
    pub fn push(&mut self, command: Command)
        ensures
            final(self)@ == if command@ is Nop {
                old(self)@
            } else {
                old(self)@.push(command@)
            },
    {
        match command {
            Command::Nop => {},
            command => {
                self.commands.push_back(command);
                assert(command_views(self.commands@) =~= command_views(old(self).commands@).push(
                    command@,
                ));
            },
        }
    }

    /// Takes the command that has waited longest from the queue.
    pub fn pop(&mut self) -> (command: Option<Command>)
        ensures
            match command {
                Some(c) => old(self)@.len() > 0 && c@ == old(self)@[0] && final(self)@
                    == old(self)@.drop_first(),
                None => old(self)@.len() == 0 && final(self)@ == old(self)@,
            },
    {
        let command = self.commands.pop_front();
        proof {
            if command is Some {
                assert(command_views(old(self).commands@)[0] == old(self).commands@[0]@);
                assert(command_views(self.commands@) =~= command_views(
                    old(self).commands@,
                ).drop_first());
            }
        }
        command
    }

    /// The number of commands that wait.
    pub fn len(&self) -> (len: usize)
        ensures
            len == self@.len(),
    {
        self.commands.len()
    }

    /// Whether no command waits.
    pub fn is_empty(&self) -> (empty: bool)
        ensures
            empty == (self@.len() == 0),
    {
        self.commands.len() == 0
    }
}

} // verus!
