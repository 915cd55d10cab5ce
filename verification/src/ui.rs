//! The state of the user interface that does not depend on how it is drawn:
//! which screen is shown, which panel has the focus and which entries are
//! selected.

pub mod help_screen;
pub mod labels;
pub mod main_screen;
pub mod playlist_screen;

use crate::command::{Command, CommandView};
use crate::library::track::{track_views, Track, TrackView};
use crate::library::{Library, LibraryView};
use crate::media_system::{rotated, Queueable, QueueableView};
use crate::playlist::{text_views, Playlist, PlaylistView};
use crate::text::{decimal, decimal_digits};
use crate::ui::help_screen::{binding_views, help_text, HelpScreen, KeyBinding};
use crate::ui::main_screen::{MainScreen, MainScreenView};
use crate::ui::playlist_screen::{playlist_views, PlaylistScreen, PlaylistScreenView};
use vstd::prelude::*;
use vstd::string::StringExecFns;

verus! {

/// A movement of the selection within a list, or of the focus between
/// panels.
#[derive(Clone, Copy, Debug, PartialEq, Eq, Structural)]
pub enum MovementDirection {
    Prev,
    Next,
    Top,
    Bottom,
}

/// The screens of the user interface.
#[derive(Clone, Copy, Debug, PartialEq, Eq, Structural)]
pub enum ScreenEnum {
    Main,
    Playlists,
    Help,
}

/// Where the selection of a list of `len` entries stands after a movement
/// from `selected`: one step with wrap-around at either end, or a jump to
/// the first or the last entry.
pub open spec fn moved_selection(selected: nat, len: nat, direction: MovementDirection) -> nat
    recommends
        len > 0,
{
    match direction {
        MovementDirection::Prev => if selected == 0 {
            (len - 1) as nat
        } else {
            (selected - 1) as nat
        },
        MovementDirection::Next => if selected == len - 1 {
            0
        } else {
            selected + 1
        },
        MovementDirection::Top => 0,
        MovementDirection::Bottom => (len - 1) as nat,
    }
}

/// Where the selection of a list of `len` entries stands after a movement
/// from `selected`; `None` when the list is empty, or when a step forward
/// would leave the range of `usize`.
pub fn move_selection(selected: usize, len: usize, direction: MovementDirection) -> (moved: Option<
    usize,
>)
    ensures
        match moved {
            Some(m) => len > 0 && m == moved_selection(selected as nat, len as nat, direction),
            None => len == 0 || moved_selection(selected as nat, len as nat, direction)
                > usize::MAX,
        },
{
    if len == 0 {
        return None;
    }
    match direction {
        MovementDirection::Prev => if selected == 0 {
            Some(len - 1)
        } else {
            Some(selected - 1)
        },
        MovementDirection::Next => if selected == len - 1 {
            Some(0)
        } else if selected == usize::MAX {
            None
        } else {
            Some(selected + 1)
        },
        MovementDirection::Top => Some(0),
        MovementDirection::Bottom => Some(len - 1),
    }
}

/// The place that a selection stands for: that of the first entry where
/// nothing is selected.
pub open spec fn place_of_selection(selected: Option<usize>) -> usize {
    match selected {
        Some(place) => place,
        None => 0,
    }
}

/// The selection after a movement in a list of `len` entries: unchanged
/// where the list is empty or the movement cannot be made.
pub open spec fn selection_after_move(
    selected: Option<usize>,
    len: nat,
    direction: MovementDirection,
) -> Option<usize> {
    let moved = moved_selection(place_of_selection(selected) as nat, len, direction);
    if len == 0 || moved > usize::MAX {
        selected
    } else {
        Some(moved as usize)
    }
}

/// The selection after the list it belongs to has been replaced by one of
/// `len` entries: nothing where the new list is empty, its last entry where
/// the selection lies behind it, and unchanged otherwise.
pub open spec fn selection_within(selected: Option<usize>, len: nat) -> Option<usize> {
    if len == 0 {
        None
    } else if place_of_selection(selected) >= len {
        Some((len - 1) as usize)
    } else {
        selected
    }
}

/// A list of the user interface together with the place of its selected
/// entry, if any.
#[derive(Debug)]
pub struct UIList<Item> {
    /// The items in the list.
    pub list: Vec<Item>,
    /// The place of the selected item.
    pub selected: Option<usize>,
}

impl<Item> UIList<Item> {
    /// A list with its first place selected.
    pub fn new(list: Vec<Item>) -> (ui_list: Self)
        ensures
            ui_list.list == list,
            ui_list.selected == Some(0usize),
    {
        UIList { list, selected: Some(0) }
    }

    /// The place that the selection stands for.
    pub fn selected_place(&self) -> (place: usize)
        ensures
            place == place_of_selection(self.selected),
    {
        match self.selected {
            Some(place) => place,
            None => 0,
        }
    }

    /// Moves the selection.
    pub fn switch_item(&mut self, direction: MovementDirection)
        ensures
            final(self).list == old(self).list,
            final(self).selected == selection_after_move(
                old(self).selected,
                old(self).list@.len(),
                direction,
            ),
    {
        match move_selection(self.selected_place(), self.list.len(), direction) {
            Some(moved) => {
                self.selected = Some(moved);
            },
            None => {},
        }
    }

    /// Replaces the list and keeps the selection within the new one.
    pub fn replace(&mut self, list: Vec<Item>)
        ensures
            final(self).list == list,
            final(self).selected == selection_within(old(self).selected, list@.len()),
    {
        if list.len() == 0 {
            self.selected = None;
        } else if self.selected_place() >= list.len() {
            self.selected = Some(list.len() - 1);
        }
        self.list = list;
    }
}

/// The tracks to play when the track at `place` of `tracks` is chosen: that
/// track alone, or all of `tracks` starting with it and going round to the
/// one before it. No tracks where there is no such place.
pub open spec fn chosen_tracks(tracks: Seq<TrackView>, place: int, current_only: bool) -> Seq<
    TrackView,
> {
    if 0 <= place < tracks.len() {
        if current_only {
            seq![tracks[place]]
        } else {
            rotated(tracks, place)
        }
    } else {
        Seq::empty()
    }
}

/// The tracks to play when the track at `place` of `tracks` is chosen.
pub fn choose_tracks(tracks: &Vec<Track>, place: usize, current_only: bool) -> (chosen: Vec<Track>)
    ensures
        track_views(chosen@) == chosen_tracks(track_views(tracks@), place as int, current_only),
{
    let ghost all = track_views(tracks@);
    let mut chosen: Vec<Track> = Vec::new();
    assert(track_views(chosen@) =~= Seq::empty());
    if place >= tracks.len() {
        return chosen;
    }
    assert(all[place as int] == tracks@[place as int]@);
    chosen.push(tracks[place].clone());
    assert(track_views(chosen@) =~= all.subrange(place as int, place + 1));
    if current_only {
        assert(track_views(chosen@) =~= seq![all[place as int]]);
        return chosen;
    }
    let mut i: usize = place + 1;
    while i < tracks.len()
        invariant
            place < i <= tracks.len(),
            all == track_views(tracks@),
            track_views(chosen@) == all.subrange(place as int, i as int),
        decreases tracks.len() - i,
    {
        let ghost before = track_views(chosen@);
        chosen.push(tracks[i].clone());
        assert(all[i as int] == tracks@[i as int]@);
        assert(track_views(chosen@) =~= before.push(all[i as int]));
        i += 1;
        assert(before.push(all[i - 1]) =~= all.subrange(place as int, i as int));
    }
    let ghost tail = track_views(chosen@);
    let mut k: usize = 0;
    assert(track_views(chosen@) =~= tail + all.subrange(0, 0));
    while k < place
        invariant
            k <= place < tracks.len(),
            all == track_views(tracks@),
            tail == all.subrange(place as int, all.len() as int),
            track_views(chosen@) == tail + all.subrange(0, k as int),
        decreases place - k,
    {
        let ghost before = track_views(chosen@);
        chosen.push(tracks[k].clone());
        assert(all[k as int] == tracks@[k as int]@);
        assert(track_views(chosen@) =~= before.push(all[k as int]));
        k += 1;
        assert(before.push(all[k - 1]) =~= tail + all.subrange(0, k as int));
    }
    chosen
}

/// The command that a key stands for on `screen` while `panel` of the
/// playlist screen has the focus, given the command that the key is bound
/// to, if any.
///
/// An unbound key does nothing. Selecting a playlist only works in the
/// playlist panel of the playlist screen, and adding to a playlist does not
/// work there.
pub open spec fn key_command(
    bound: Option<CommandView>,
    screen: ScreenEnum,
    panel: playlist_screen::Panel,
) -> CommandView {
    let in_playlists = screen == ScreenEnum::Playlists && panel
        == playlist_screen::Panel::Playlists;
    match bound {
        None => CommandView::Nop,
        Some(CommandView::SelectPlaylist) => if in_playlists {
            CommandView::SelectPlaylist
        } else {
            CommandView::Nop
        },
        Some(CommandView::PlaylistAdd) => if in_playlists {
            CommandView::Nop
        } else {
            CommandView::PlaylistAdd
        },
        Some(command) => command,
    }
}

/// The view of an optional command.
pub open spec fn command_option_view(command: Option<Command>) -> Option<CommandView> {
    match command {
        Some(c) => Some(c@),
        None => None,
    }
}

/// The command that a key stands for on `screen` while `panel` of the
/// playlist screen has the focus, given the command that the key is bound
/// to, if any.
pub fn get_key_command(
    bound: Option<Command>,
    screen: ScreenEnum,
    panel: playlist_screen::Panel,
) -> (command: Command)
    ensures
        command@ == key_command(command_option_view(bound), screen, panel),
{
    let in_playlists = match (screen, panel) {
        (ScreenEnum::Playlists, playlist_screen::Panel::Playlists) => true,
        _ => false,
    };
    match bound {
        None => Command::Nop,
        Some(Command::SelectPlaylist) => if in_playlists {
            Command::SelectPlaylist
        } else {
            Command::Nop
        },
        Some(Command::PlaylistAdd) => if in_playlists {
            Command::Nop
        } else {
            Command::PlaylistAdd
        },
        Some(command) => command,
    }
}

/// The user interface: its screens, the screen that is shown, the playlist
/// that tracks are added to, and the library that is shown.
#[derive(Debug)]
pub struct UI {
    pub main_screen: MainScreen,
    pub playlist_screen: PlaylistScreen,
    pub help_screen: HelpScreen,
    /// The current screen.
    pub screen: ScreenEnum,
    /// The place of the playlist that tracks are added to.
    pub selected_playlist_index: Option<usize>,
    pub library: Library,
}

/// A [`UI`] as plain values.
pub struct UIView {
    pub main_screen: MainScreenView,
    pub playlist_screen: PlaylistScreenView,
    pub help_page: Seq<char>,
    pub screen: ScreenEnum,
    pub selected_playlist_index: Option<usize>,
    pub library: LibraryView,
}

impl View for UI {
    type V = UIView;

    open spec fn view(&self) -> UIView {
        UIView {
            main_screen: self.main_screen@,
            playlist_screen: self.playlist_screen@,
            help_page: self.help_screen.help_page@,
            screen: self.screen,
            selected_playlist_index: self.selected_playlist_index,
            library: self.library@,
        }
    }
}

/// What is said after `tracks` have been added to the playlist called
/// `playlist`.
pub open spec fn added_message(tracks: Seq<TrackView>, playlist: Seq<char>) -> Seq<char> {
    if tracks.len() == 1 {
        "Added \""@ + tracks[0].display_name() + "\" to "@ + playlist
    } else {
        "Added "@ + decimal_digits(tracks.len()) + " tracks to "@ + playlist
    }
}

/// The names of `playlists` as they are listed, with a star before the one
/// at the place `marked`.
pub open spec fn marked_names(playlists: Seq<PlaylistView>, marked: Option<usize>) -> Seq<
    Seq<char>,
> {
    Seq::new(
        playlists.len(),
        |i: int|
            if marked == Some(i as usize) {
                "*"@ + playlists[i].name
            } else {
                playlists[i].name
            },
    )
}

impl UIView {
    /// The user interface with the lists of the current screen brought up to
    /// date.
    pub open spec fn after_update_lists(self) -> UIView {
        match self.screen {
            ScreenEnum::Main => UIView {
                main_screen: self.main_screen.after_update_lists(),
                ..self
            },
            ScreenEnum::Playlists => UIView {
                playlist_screen: self.playlist_screen.after_update_lists(),
                ..self
            },
            ScreenEnum::Help => self,
        }
    }

    /// The user interface after the selection of the current screen has
    /// moved.
    pub open spec fn after_switch_item(self, direction: MovementDirection) -> UIView {
        match self.screen {
            ScreenEnum::Main => UIView {
                main_screen: self.main_screen.after_switch_item(direction),
                ..self
            },
            ScreenEnum::Playlists => UIView {
                playlist_screen: self.playlist_screen.after_switch_item(direction),
                ..self
            },
            ScreenEnum::Help => self,
        }
    }

    /// The user interface after the focus of the current screen has moved.
    pub open spec fn after_switch_panel(self, direction: MovementDirection) -> UIView {
        match self.screen {
            ScreenEnum::Main => UIView {
                main_screen: self.main_screen.after_switch_panel(direction),
                ..self
            },
            ScreenEnum::Playlists => UIView {
                playlist_screen: self.playlist_screen.after_switch_panel(direction),
                ..self
            },
            ScreenEnum::Help => self,
        }
    }

    /// The user interface after a change to `screen`: a change to another
    /// screen brings the lists of that screen up to date.
    pub open spec fn after_switch_screen(self, screen: ScreenEnum) -> UIView {
        if self.screen == screen {
            self
        } else {
            (UIView { screen, ..self }).after_update_lists()
        }
    }

    /// The user interface after the playlist that is selected in the list of
    /// playlists has become the one that tracks are added to; without a
    /// selection nothing changes.
    pub open spec fn after_select_playlist(self) -> UIView {
        UIView {
            selected_playlist_index: match self.playlist_screen.playlist_selected {
                Some(place) => Some(place),
                None => self.selected_playlist_index,
            },
            ..self
        }
    }

    /// Whether `command` is one that only moves about the user interface.
    pub open spec fn handles(command: CommandView) -> bool {
        match command {
            CommandView::Down
            | CommandView::Up
            | CommandView::NextPanel
            | CommandView::PrevPanel
            | CommandView::GotoTop
            | CommandView::GotoBottom
            | CommandView::GotoScreen(_)
            | CommandView::SelectPlaylist => true,
            _ => false,
        }
    }

    /// The user interface after `command`: a step up or down moves the
    /// selection and brings the lists up to date, the other movements move
    /// the focus, the selection or the screen; commands that do not move
    /// about the user interface change nothing.
    pub open spec fn after_command(self, command: CommandView) -> UIView {
        match command {
            CommandView::Down => self.after_switch_item(
                MovementDirection::Next,
            ).after_update_lists(),
            CommandView::Up => self.after_switch_item(
                MovementDirection::Prev,
            ).after_update_lists(),
            CommandView::NextPanel => self.after_switch_panel(MovementDirection::Next),
            CommandView::PrevPanel => self.after_switch_panel(MovementDirection::Prev),
            CommandView::GotoTop => self.after_switch_item(MovementDirection::Top),
            CommandView::GotoBottom => self.after_switch_item(MovementDirection::Bottom),
            CommandView::GotoScreen(screen) => self.after_switch_screen(screen),
            CommandView::SelectPlaylist => self.after_select_playlist(),
            _ => self,
        }
    }

    /// What is put on the queue when the selection of the current screen is
    /// chosen; the help screen has nothing to choose.
    pub open spec fn selected(self, tracks_current_only: bool) -> QueueableView {
        match self.screen {
            ScreenEnum::Main => self.main_screen.selected(tracks_current_only),
            ScreenEnum::Playlists => self.playlist_screen.selected(tracks_current_only),
            ScreenEnum::Help => QueueableView::Empty,
        }
    }

    /// Whether there is a playlist that tracks are added to.
    pub open spec fn has_target(self) -> bool {
        self.selected_playlist_index matches Some(place) && place
            < self.playlist_screen.playlists.len()
    }

    /// The user interface after the selected tracks have been added to the
    /// playlist that tracks are added to, if there is one.
    pub open spec fn after_add_selected(self) -> UIView {
        if self.has_target() {
            let place = self.selected_playlist_index->0 as int;
            let playlist = self.playlist_screen.playlists[place];
            UIView {
                playlist_screen: PlaylistScreenView {
                    playlists: self.playlist_screen.playlists.update(
                        place,
                        PlaylistView {
                            tracks: playlist.tracks + self.selected(true).tracks(),
                            ..playlist
                        },
                    ),
                    ..self.playlist_screen
                },
                ..self
            }
        } else {
            self
        }
    }

    /// What is said after an attempt to add the selected tracks to a
    /// playlist.
    pub open spec fn add_selected_message(self) -> Seq<char> {
        match self.selected_playlist_index {
            Some(place) => if place < self.playlist_screen.playlists.len() {
                added_message(
                    self.selected(true).tracks(),
                    self.playlist_screen.playlists[place as int].name,
                )
            } else {
                "Error: selected playlist index does not exist"@
            },
            None => "Select a playlist to add tracks"@,
        }
    }
}

/// What is said after `tracks` have been added to the playlist called
/// `playlist`.
fn write_added_message(tracks: &Vec<Track>, playlist: &str) -> (message: String)
    ensures
        message@ == added_message(track_views(tracks@), playlist@),
{
    if tracks.len() == 1 {
        assert(track_views(tracks@)[0] == tracks@[0]@);
        String::from_str("Added \"").concat(tracks[0].display_name().as_str()).concat(
            "\" to ",
        ).concat(playlist)
    } else {
        assert(track_views(tracks@).len() == tracks@.len());
        String::from_str("Added ").concat(decimal(tracks.len() as u64).as_str()).concat(
            " tracks to ",
        ).concat(playlist)
    }
}

impl UI {
    /// The user interface as it is first shown for `library`, the key
    /// bindings `bindings` and `playlists`.
    pub fn new(library: &Library, bindings: &Vec<KeyBinding>, playlists: &Vec<Playlist>) -> (ui:
        Self)
        ensures
            ui@ == (UIView {
                main_screen: MainScreenView::initial(library@.tracks.tracks),
                playlist_screen: PlaylistScreenView::initial(playlist_views(playlists@)),
                help_page: help_text(binding_views(bindings@)),
                screen: ScreenEnum::Main,
                selected_playlist_index: None,
                library: library@,
            }),
    {
        UI {
            main_screen: MainScreen::new(library),
            playlist_screen: PlaylistScreen::new(playlists),
            help_screen: HelpScreen::new(bindings),
            screen: ScreenEnum::Main,
            selected_playlist_index: None,
            library: library.clone(),
        }
    }

    /// Shows another library.
    pub fn update_library(&mut self, library: Library)
        ensures
            final(self)@ == (UIView {
                main_screen: MainScreenView::initial(library@.tracks.tracks),
                library: library@,
                ..old(self)@
            }),
    {
        self.main_screen = MainScreen::new(&library);
        self.library = library;
    }

    /// Moves the selection of the current screen.
    pub fn switch_item(&mut self, direction: MovementDirection)
        ensures
            final(self)@ == old(self)@.after_switch_item(direction),
    {
        match self.screen {
            ScreenEnum::Main => self.main_screen.switch_item(direction),
            ScreenEnum::Playlists => self.playlist_screen.switch_item(direction),
            ScreenEnum::Help => {},
        }
    }

    /// Moves the focus of the current screen.
    pub fn switch_panel(&mut self, direction: MovementDirection)
        ensures
            final(self)@ == old(self)@.after_switch_panel(direction),
    {
        match self.screen {
            ScreenEnum::Main => self.main_screen.switch_panel(direction),
            ScreenEnum::Playlists => self.playlist_screen.switch_panel(direction),
            ScreenEnum::Help => {},
        }
    }

    /// Shows `screen`.
    pub fn switch_screen(&mut self, screen: ScreenEnum)
        ensures
            final(self)@ == old(self)@.after_switch_screen(screen),
    {
        if self.screen != screen {
            self.screen = screen;
            self.update_lists();
        }
    }

    /// Brings the lists of the current screen up to date with the
    /// selection.
    pub fn update_lists(&mut self)
        ensures
            final(self)@ == old(self)@.after_update_lists(),
    {
        match self.screen {
            ScreenEnum::Main => self.main_screen.update_lists(),
            ScreenEnum::Playlists => self.playlist_screen.update_lists(),
            ScreenEnum::Help => {},
        }
    }

    /// What is put on the queue when the selection of the current screen is
    /// chosen.
    pub fn get_selected(&self, tracks_current_only: bool) -> (queueable: Queueable)
        ensures
            queueable@ == self@.selected(tracks_current_only),
    {
        match self.screen {
            ScreenEnum::Main => self.main_screen.get_selected(tracks_current_only),
            ScreenEnum::Playlists => self.playlist_screen.get_selected(tracks_current_only),
            ScreenEnum::Help => Queueable::Empty,
        }
    }

    /// The command that a key stands for at the moment, given the command
    /// that the key is bound to, if any.
    pub fn get_key_command(&self, bound: Option<Command>) -> (command: Command)
        ensures
            command@ == key_command(
                command_option_view(bound),
                self@.screen,
                self@.playlist_screen.panel,
            ),
    {
        get_key_command(bound, self.screen, self.playlist_screen.panel)
    }

    /// Adds a playlist to the end of the list of playlists.
    pub fn add_playlist(&mut self, playlist: &Playlist)
        ensures
            final(self)@ == (UIView {
                playlist_screen: old(self)@.playlist_screen.with_playlist(playlist@),
                ..old(self)@
            }),
    {
        self.playlist_screen.add_playlist(playlist);
    }

    /// Adds the selected tracks to the playlist that tracks are added to.
    /// Returns what to tell the user.
    pub fn add_selected_to_playlist(&mut self) -> (message: String)
        ensures
            final(self)@ == old(self)@.after_add_selected(),
            message@ == old(self)@.add_selected_message(),
    {
        match self.selected_playlist_index {
            Some(place) => {
                if place < self.playlist_screen.playlist_list.list.len() {
                    let mut tracks = self.get_selected(true).get_tracks();
                    let ghost before = playlist_views(self.playlist_screen.playlist_list.list@);
                    assert(before[place as int]
                        == self.playlist_screen.playlist_list.list@[place as int]@);
                    let mut playlist = self.playlist_screen.playlist_list.list[place].clone();
                    let message = write_added_message(&tracks, playlist.name.as_str());
                    playlist.add(&mut tracks);
                    self.playlist_screen.playlist_list.list.remove(place);
                    self.playlist_screen.playlist_list.list.insert(place, playlist);
                    assert(playlist_views(self.playlist_screen.playlist_list.list@)
                        =~= before.update(place as int, playlist@));
                    message
                } else {
                    String::from_str("Error: selected playlist index does not exist")
                }
            },
            None => String::from_str("Select a playlist to add tracks"),
        }
    }

    /// Makes the playlist that is selected in the list of playlists the one
    /// that tracks are added to; without a selection nothing changes.
    pub fn select_current_playlist(&mut self)
        ensures
            final(self)@ == old(self)@.after_select_playlist(),
    {
        match self.playlist_screen.playlist_list.selected {
            Some(place) => {
                self.selected_playlist_index = Some(place);
            },
            None => {},
        }
    }

    /// Carries out `command` if it is one that only moves about the user
    /// interface. Returns whether it is.
    pub fn apply(&mut self, command: &Command) -> (handled: bool)
        ensures
            final(self)@ == old(self)@.after_command(command@),
            handled == UIView::handles(command@),
    {
        match command {
            Command::Down => {
                self.switch_item(MovementDirection::Next);
                self.update_lists();
                true
            },
            Command::Up => {
                self.switch_item(MovementDirection::Prev);
                self.update_lists();
                true
            },
            Command::NextPanel => {
                self.switch_panel(MovementDirection::Next);
                true
            },
            Command::PrevPanel => {
                self.switch_panel(MovementDirection::Prev);
                true
            },
            Command::GotoTop => {
                self.switch_item(MovementDirection::Top);
                true
            },
            Command::GotoBottom => {
                self.switch_item(MovementDirection::Bottom);
                true
            },
            Command::GotoScreen(screen) => {
                self.switch_screen(*screen);
                true
            },
            Command::SelectPlaylist => {
                self.select_current_playlist();
                true
            },
            _ => false,
        }
    }

    /// The playlist that tracks are added to, if there is one.
    pub fn selected_playlist(&self) -> (playlist: Option<&Playlist>)
        ensures
            match playlist {
                Some(p) => self@.has_target() && p@
                    == self@.playlist_screen.playlists[self@.selected_playlist_index->0 as int],
                None => !self@.has_target(),
            },
    {
        match self.selected_playlist_index {
            Some(place) => if place < self.playlist_screen.playlist_list.list.len() {
                assert(self@.playlist_screen.playlists[place as int]
                    == self.playlist_screen.playlist_list.list@[place as int]@);
                Some(&self.playlist_screen.playlist_list.list[place])
            } else {
                None
            },
            None => None,
        }
    }

    /// The names of the playlists as they are listed, with a star before
    /// the one that tracks are added to.
    pub fn playlist_names(&self) -> (names: Vec<String>)
        ensures
            text_views(names@) == marked_names(
                self@.playlist_screen.playlists,
                self@.selected_playlist_index,
            ),
    {
        let ghost playlists = self@.playlist_screen.playlists;
        let ghost expected = marked_names(playlists, self.selected_playlist_index);
        let mut names: Vec<String> = Vec::new();
        let mut i: usize = 0;
        assert(text_views(names@) =~= expected.subrange(0, 0));
        while i < self.playlist_screen.playlist_list.list.len()
            invariant
                i <= self.playlist_screen.playlist_list.list.len(),
                playlists == playlist_views(self.playlist_screen.playlist_list.list@),
                expected == marked_names(playlists, self.selected_playlist_index),
                text_views(names@) == expected.subrange(0, i as int),
            decreases self.playlist_screen.playlist_list.list.len() - i,
        {
            let playlist = &self.playlist_screen.playlist_list.list[i];
            assert(playlists[i as int] == playlist@);
            let marked = match self.selected_playlist_index {
                Some(place) => place == i,
                None => false,
            };
            let name = if marked {
                String::from_str("*").concat(playlist.name.as_str())
            } else {
                playlist.name.clone()
            };
            let ghost before = text_views(names@);
            names.push(name);
            assert(text_views(names@) =~= before.push(expected[i as int]));
            i += 1;
            assert(before.push(expected[i - 1]) =~= expected.subrange(0, i as int));
        }
        assert(expected.subrange(0, i as int) =~= expected);
        names
    }
}

} // verus!
