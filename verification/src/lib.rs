//! A personal audio playback engine: the play queue, the play history and the
//! shuffle, repeat and gapless policies that decide what plays next, together
//! with the music library model the queue is filled from.

pub mod command;
pub mod config;
pub mod library;
pub mod media_system;
pub mod playlist;
pub mod text;
pub mod time;
pub mod traits;
pub mod ui;
pub mod util;

use crate::command::{Command, CommandView};
use vstd::prelude::*;

verus! {

/// What the keyboard is used for at the moment.
#[derive(Clone, Copy, Debug, PartialEq, Eq, Structural)]
pub enum Mode {
    /// Keys are commands.
    Normal,
    /// Keys spell the name of a new playlist.
    PlaylistEntry,
    /// Keys spell a command line.
    CommandEntry,
}

/// A key as far as the entry of text is concerned.
#[derive(Clone, Copy, Debug, PartialEq, Eq, Structural)]
pub enum EntryKey {
    /// The key that ends the entry.
    Enter,
    /// The key that gives the entry up.
    Esc,
    /// Any other key.
    Other,
}

/// What a key press leads to.
#[derive(Clone, Copy, Debug, PartialEq, Eq, Structural)]
pub enum KeyAction {
    /// The command that the key is bound to is carried out.
    Command,
    /// A playlist with the entered name is made.
    CreatePlaylist,
    /// The entered command line is carried out.
    RunCommandLine,
    /// The entry is thrown away.
    Cancel,
    /// The key goes into the entry.
    Edit,
}

impl Mode {
    /// What a key press leads to in this mode.
    pub open spec fn action(self, key: EntryKey) -> KeyAction {
        match (self, key) {
            (Mode::Normal, _) => KeyAction::Command,
            (Mode::PlaylistEntry, EntryKey::Enter) => KeyAction::CreatePlaylist,
            (Mode::CommandEntry, EntryKey::Enter) => KeyAction::RunCommandLine,
            (_, EntryKey::Esc) => KeyAction::Cancel,
            (_, EntryKey::Other) => KeyAction::Edit,
        }
    }

    /// The mode after a key press: the end of an entry, and giving it up,
    /// lead back to normal mode; everything else leaves the mode as it is.
    pub open spec fn after_key(self, key: EntryKey) -> Mode {
        match self.action(key) {
            KeyAction::CreatePlaylist | KeyAction::RunCommandLine | KeyAction::Cancel => {
                Mode::Normal
            },
            _ => self,
        }
    }

    /// The mode after a command: the command for a new playlist without a
    /// name starts the entry of the name, the command to enter a command
    /// starts the entry of a command line; everything else leaves the mode as
    /// it is.
    pub open spec fn after_command(self, command: CommandView) -> Mode {
        match command {
            CommandView::NewPlaylist(None) => Mode::PlaylistEntry,
            CommandView::EnterCommand => Mode::CommandEntry,
            _ => self,
        }
    }

    /// The text that stands before the entry in this mode.
    pub open spec fn prompt_text(self) -> Seq<char> {
        match self {
            Mode::Normal => Seq::empty(),
            Mode::PlaylistEntry => "New playlist: "@,
            Mode::CommandEntry => ":"@,
        }
    }

    /// Whether the cursor is shown in this mode.
    pub open spec fn cursor_shown(self) -> bool {
        self != Mode::Normal
    }

    /// What a key press leads to in this mode, and the mode after it.
    pub fn on_key(self, key: EntryKey) -> (outcome: (KeyAction, Mode))
        ensures
            outcome.0 == self.action(key),
            outcome.1 == self.after_key(key),
    {
        match (self, key) {
            (Mode::Normal, _) => (KeyAction::Command, self),
            (Mode::PlaylistEntry, EntryKey::Enter) => (KeyAction::CreatePlaylist, Mode::Normal),
            (Mode::CommandEntry, EntryKey::Enter) => (KeyAction::RunCommandLine, Mode::Normal),
            (_, EntryKey::Esc) => (KeyAction::Cancel, Mode::Normal),
            (_, EntryKey::Other) => (KeyAction::Edit, self),
        }
    }

    /// The mode after a command.
    pub fn on_command(self, command: &Command) -> (mode: Mode)
        ensures
            mode == self.after_command(command@),
    {
        match command {
            Command::NewPlaylist(None) => Mode::PlaylistEntry,
            Command::EnterCommand => Mode::CommandEntry,
            _ => self,
        }
    }

    /// The text that stands before the entry in this mode.
    pub fn prompt(self) -> (text: &'static str)
        ensures
            text@ == self.prompt_text(),
    {
        match self {
            Mode::Normal => {
                proof {
                    reveal_strlit("");
                }
                assert(""@ =~= Seq::<char>::empty());
                ""
            },
            Mode::PlaylistEntry => "New playlist: ",
            Mode::CommandEntry => ":",
        }
    }

    /// Whether the cursor is shown in this mode.
    pub fn shows_cursor(self) -> (shown: bool)
        ensures
            shown == self.cursor_shown(),
    {
        match self {
            Mode::Normal => false,
            _ => true,
        }
    }
}

} // verus!
