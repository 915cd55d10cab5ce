use rmup::config::ConfOption;
use rmup::ui::playlist_screen::Panel;
use rmup::ui::MovementDirection::{Bottom, Next, Prev, Top};
use rmup::ui::move_selection;

#[test]
fn selection_moves_and_wraps() {
    assert_eq!(move_selection(0, 0, Next), None);
    assert_eq!(move_selection(0, 3, Next), Some(1));
    assert_eq!(move_selection(2, 3, Next), Some(0));
    assert_eq!(move_selection(0, 3, Prev), Some(2));
    assert_eq!(move_selection(2, 3, Prev), Some(1));
    assert_eq!(move_selection(1, 3, Top), Some(0));
    assert_eq!(move_selection(1, 3, Bottom), Some(2));
    assert_eq!(move_selection(0, 1, Next), Some(0));
    assert_eq!(move_selection(0, 1, Prev), Some(0));
    assert_eq!(move_selection(7, 3, Next), Some(8));
    assert_eq!(move_selection(usize::MAX, 3, Next), None);
}

#[test]
fn playlist_panels_alternate() {
    assert_eq!(Panel::Playlists.switch(Next), Panel::Tracks);
    assert_eq!(Panel::Playlists.switch(Prev), Panel::Tracks);
    assert_eq!(Panel::Tracks.switch(Next), Panel::Playlists);
    assert_eq!(Panel::Tracks.switch(Top), Panel::Tracks);
    assert_eq!(Panel::Playlists.switch(Bottom), Panel::Playlists);
}

#[test]
fn switches_default_to_on() {
    assert!(ConfOption::NerdFontIcons.default_value());
    assert!(ConfOption::GaplessPlayback.default_value());
}
