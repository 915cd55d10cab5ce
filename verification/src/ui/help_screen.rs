//! The screen that tells which keys do what.

use crate::command::{Command, CommandView};
use crate::playlist::text_views;
use crate::ui::ScreenEnum;
use vstd::prelude::*;
use vstd::string::StringExecFns;

verus! {

/// A key, by the name that it is shown under, and the command that it is
/// bound to.
#[derive(Debug)]
pub struct KeyBinding {
    pub key: String,
    pub command: Command,
}

/// A [`KeyBinding`] as plain values.
pub struct KeyBindingView {
    pub key: Seq<char>,
    pub command: CommandView,
}

impl View for KeyBinding {
    type V = KeyBindingView;

    open spec fn view(&self) -> KeyBindingView {
        KeyBindingView { key: self.key@, command: self.command@ }
    }
}

/// The views of a sequence of key bindings, in the same order.
pub open spec fn binding_views(bindings: Seq<KeyBinding>) -> Seq<KeyBindingView> {
    bindings.map_values(|b: KeyBinding| b@)
}

/// The keys that are bound to `command`, in the order of `bindings`.
pub open spec fn keys_of(bindings: Seq<KeyBindingView>, command: CommandView) -> Seq<Seq<char>>
    decreases bindings.len(),
{
    if bindings.len() == 0 {
        Seq::empty()
    } else if bindings.last().command == command {
        keys_of(bindings.drop_last(), command).push(bindings.last().key)
    } else {
        keys_of(bindings.drop_last(), command)
    }
}

/// `names` one after the other with a comma and a space between them.
pub open spec fn joined(names: Seq<Seq<char>>) -> Seq<char>
    decreases names.len(),
{
    if names.len() == 0 {
        Seq::empty()
    } else if names.len() == 1 {
        names[0]
    } else {
        joined(names.drop_last()) + ", "@ + names.last()
    }
}

/// The keys that are bound to `command`, in the order of `bindings`.
pub fn get_command_keys(bindings: &Vec<KeyBinding>, command: &Command) -> (keys: Vec<String>)
    ensures
        text_views(keys@) == keys_of(binding_views(bindings@), command@),
{
    let ghost all = binding_views(bindings@);
    let mut keys: Vec<String> = Vec::new();
    let mut i: usize = 0;
    assert(all.subrange(0, 0) =~= Seq::<KeyBindingView>::empty());
    assert(text_views(keys@) =~= keys_of(all.subrange(0, 0), command@));
    while i < bindings.len()
        invariant
            i <= bindings.len(),
            all == binding_views(bindings@),
            text_views(keys@) == keys_of(all.subrange(0, i as int), command@),
        decreases bindings.len() - i,
    {
        let ghost seen = all.subrange(0, i + 1);
        assert(seen.drop_last() =~= all.subrange(0, i as int));
        assert(seen.last() == bindings@[i as int]@);
        if bindings[i].command.same_as(command) {
            let ghost before = text_views(keys@);
            keys.push(bindings[i].key.clone());
            assert(text_views(keys@) =~= before.push(bindings@[i as int].key@));
        }
        i += 1;
    }
    assert(all.subrange(0, i as int) =~= all);
    keys
}

/// The names of keys as they are shown: one after the other with a comma
/// and a space between them.
pub fn display_keys(names: &Vec<String>) -> (text: String)
    ensures
        text@ == joined(text_views(names@)),
{
    let ghost all = text_views(names@);
    let mut text = String::new();
    if names.len() == 0 {
        return text;
    }
    text.append(names[0].as_str());
    assert(all.subrange(0, 1) =~= seq![all[0]]);
    assert(all[0] == names@[0]@);
    assert(text@ =~= names@[0]@);
    let mut i: usize = 1;
    while i < names.len()
        invariant
            1 <= i <= names.len(),
            all == text_views(names@),
            text@ == joined(all.subrange(0, i as int)),
        decreases names.len() - i,
    {
        let ghost seen = all.subrange(0, i + 1);
        assert(seen.drop_last() =~= all.subrange(0, i as int));
        assert(seen.last() == names@[i as int]@);
        text.append(", ");
        text.append(names[i].as_str());
        i += 1;
    }
    assert(all.subrange(0, i as int) =~= all);
    text
}

/// One line of the help text: what is done, and the keys that do it.
pub open spec fn help_line(
    title: Seq<char>,
    bindings: Seq<KeyBindingView>,
    command: CommandView,
) -> Seq<char> {
    title + joined(keys_of(bindings, command))
}

/// The help text for `bindings`: one line for each command that has keys,
/// with the keys that are bound to it.
pub open spec fn help_text(bindings: Seq<KeyBindingView>) -> Seq<char> {
    help_line("Up:                "@, bindings, CommandView::Up) + "\n"@ + help_line(
        "Down:              "@,
        bindings,
        CommandView::Down,
    ) + "\n"@ + help_line("Play/Pause:        "@, bindings, CommandView::TogglePlay) + "\n"@
        + help_line("Previous track:    "@, bindings, CommandView::PrevTrack) + "\n"@ + help_line(
        "Next track:        "@,
        bindings,
        CommandView::NextTrack,
    ) + "\n"@ + help_line("Enqueue:           "@, bindings, CommandView::QueueAndPlay) + "\n"@
        + help_line("Repeat:            "@, bindings, CommandView::ToggleRepeat) + "\n"@
        + help_line("Shuffle:           "@, bindings, CommandView::ToggleShuffle) + "\n"@
        + help_line("Goto top:          "@, bindings, CommandView::GotoTop) + "\n"@ + help_line(
        "Goto bottom:       "@,
        bindings,
        CommandView::GotoBottom,
    ) + "\n"@ + help_line("Next panel:        "@, bindings, CommandView::NextPanel) + "\n"@
        + help_line("Previous panel:    "@, bindings, CommandView::PrevPanel) + "\n"@ + help_line(
        "Main screen:       "@,
        bindings,
        CommandView::GotoScreen(ScreenEnum::Main),
    ) + "\n"@ + help_line(
        "Playlist screen:   "@,
        bindings,
        CommandView::GotoScreen(ScreenEnum::Playlists),
    ) + "\n"@ + help_line(
        "Help screen:       "@,
        bindings,
        CommandView::GotoScreen(ScreenEnum::Help),
    ) + "\n"@ + help_line("New playlist:      "@, bindings, CommandView::NewPlaylist(None))
        + " (Playlist screen only)\n"@ + help_line(
        "Select playlist:   "@,
        bindings,
        CommandView::SelectPlaylist,
    ) + " (Playlist screen only)\n"@ + help_line(
        "Add to playlist:   "@,
        bindings,
        CommandView::PlaylistAdd,
    ) + "\n"@ + help_line("Quit:              "@, bindings, CommandView::Quit)
}

/// One line of the help text: what is done, and the keys that do it.
fn write_help_line(title: &str, bindings: &Vec<KeyBinding>, command: Command) -> (line: String)
    ensures
        line@ == help_line(title@, binding_views(bindings@), command@),
{
    let keys = get_command_keys(bindings, &command);
    String::from_str(title).concat(display_keys(&keys).as_str())
}

/// The screen that tells which keys do what.
#[derive(Debug)]
pub struct HelpScreen {
    /// The help text.
    pub help_page: String,
}

impl HelpScreen {
    /// The help screen for `bindings`.
    pub fn new(bindings: &Vec<KeyBinding>) -> (screen: Self)
        ensures
            screen.help_page@ == help_text(binding_views(bindings@)),
    {
        let mut text = write_help_line("Up:                ", bindings, Command::Up);
        text.append("\n");
        text.append(write_help_line("Down:              ", bindings, Command::Down).as_str());
        text.append("\n");
        text.append(
            write_help_line("Play/Pause:        ", bindings, Command::TogglePlay).as_str(),
        );
        text.append("\n");
        text.append(write_help_line("Previous track:    ", bindings, Command::PrevTrack).as_str());
        text.append("\n");
        text.append(write_help_line("Next track:        ", bindings, Command::NextTrack).as_str());
        text.append("\n");
        text.append(
            write_help_line("Enqueue:           ", bindings, Command::QueueAndPlay).as_str(),
        );
        text.append("\n");
        text.append(
            write_help_line("Repeat:            ", bindings, Command::ToggleRepeat).as_str(),
        );
        text.append("\n");
        text.append(
            write_help_line("Shuffle:           ", bindings, Command::ToggleShuffle).as_str(),
        );
        text.append("\n");
        text.append(write_help_line("Goto top:          ", bindings, Command::GotoTop).as_str());
        text.append("\n");
        text.append(
            write_help_line("Goto bottom:       ", bindings, Command::GotoBottom).as_str(),
        );
        text.append("\n");
        text.append(write_help_line("Next panel:        ", bindings, Command::NextPanel).as_str());
        text.append("\n");
        text.append(write_help_line("Previous panel:    ", bindings, Command::PrevPanel).as_str());
        text.append("\n");
        text.append(
            write_help_line(
                "Main screen:       ",
                bindings,
                Command::GotoScreen(ScreenEnum::Main),
            ).as_str(),
        );
        text.append("\n");
        text.append(
            write_help_line(
                "Playlist screen:   ",
                bindings,
                Command::GotoScreen(ScreenEnum::Playlists),
            ).as_str(),
        );
        text.append("\n");
        text.append(
            write_help_line(
                "Help screen:       ",
                bindings,
                Command::GotoScreen(ScreenEnum::Help),
            ).as_str(),
        );
        text.append("\n");
        text.append(
            write_help_line("New playlist:      ", bindings, Command::NewPlaylist(None)).as_str(),
        );
        text.append(" (Playlist screen only)\n");
        text.append(
            write_help_line("Select playlist:   ", bindings, Command::SelectPlaylist).as_str(),
        );
        text.append(" (Playlist screen only)\n");
        text.append(
            write_help_line("Add to playlist:   ", bindings, Command::PlaylistAdd).as_str(),
        );
        text.append("\n");
        text.append(write_help_line("Quit:              ", bindings, Command::Quit).as_str());
        HelpScreen { help_page: text }
    }
}

} // verus!
