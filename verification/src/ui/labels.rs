//! The texts that the user interface shows for tracks, albums and the state
//! of playback.

use crate::library::album::{Album, AlbumView};
use crate::library::track::{Track, TrackView};
use crate::media_system::{MediaState, MediaStateView, Repeat};
use crate::text::{decimal, decimal_digits};
use crate::time::{Duration, NANOS_PER_SEC};
use crate::util::{to_width, widened};
use vstd::prelude::*;
use vstd::string::StringExecFns;

verus! {

/// `n` in decimal digits, with a zero before a single digit.
pub open spec fn two_digits(n: nat) -> Seq<char> {
    if n < 10 {
        "0"@ + decimal_digits(n)
    } else {
        decimal_digits(n)
    }
}

/// `n` in decimal digits, with a zero before a single digit.
pub fn write_two_digits(n: u64) -> (text: String)
    ensures
        text@ == two_digits(n as nat),
{
    if n < 10 {
        String::from_str("0").concat(decimal(n).as_str())
    } else {
        decimal(n)
    }
}

/// A time of `nanos` nanoseconds as minutes and seconds of two digits each;
/// dashes where there is no time.
pub open spec fn clock(nanos: Option<nat>) -> Seq<char> {
    match nanos {
        Some(n) => two_digits(n / NANOS_PER_SEC as nat / 60) + ":"@ + two_digits(
            n / NANOS_PER_SEC as nat % 60,
        ),
        None => "--:--"@,
    }
}

/// An optional time as minutes and seconds.
fn write_clock(time: Option<Duration>) -> (text: String)
    ensures
        text@ == clock(
            match time {
                Some(t) => Some(t@),
                None => None,
            },
        ),
{
    match time {
        Some(time) => {
            let secs = time.as_secs();
            write_two_digits(secs / 60).concat(":").concat(write_two_digits(secs % 60).as_str())
        },
        None => String::from_str("--:--"),
    }
}

/// The label of the playback bar: how far the current track has come, and
/// how long it is.
pub open spec fn bar_label(state: MediaStateView) -> Seq<char> {
    clock(state.current_track_progress) + "/"@ + clock(
        match state.current_track {
            Some(track) => Some(track.length),
            None => None,
        },
    )
}

/// The label of the playback bar.
pub fn playback_label(state: &MediaState) -> (label: String)
    ensures
        label@ == bar_label(state@),
{
    let length = match &state.current_track {
        Some(track) => Some(track.length),
        None => None,
    };
    write_clock(state.current_track_progress).concat("/").concat(write_clock(length).as_str())
}

/// The sign for the repeat mode, as an icon or as a letter.
pub open spec fn repeat_sign(repeat: Repeat, icons: bool) -> Seq<char> {
    match repeat {
        Repeat::All => if icons {
            "\u{f0456}"@
        } else {
            "R"@
        },
        Repeat::Off => if icons {
            "\u{f0457}"@
        } else {
            "-"@
        },
        Repeat::One => if icons {
            "\u{f0458}"@
        } else {
            "1"@
        },
    }
}

/// The sign for shuffle, as an icon or as a letter.
pub open spec fn shuffle_sign(shuffle: bool, icons: bool) -> Seq<char> {
    if shuffle {
        if icons {
            "\u{f049d}"@
        } else {
            "S"@
        }
    } else if icons {
        "\u{f049e}"@
    } else {
        "-"@
    }
}

/// The sign for playing or not, as an icon or as a letter.
pub open spec fn playing_sign(playing: bool, icons: bool) -> Seq<char> {
    if playing {
        if icons {
            "\u{f040a}"@
        } else {
            ">"@
        }
    } else if icons {
        "\u{f03e4}"@
    } else {
        "-"@
    }
}

/// The line that tells the state of playback: the signs for repeat, shuffle
/// and playing, and the name of the current track.
pub open spec fn info_line(state: MediaStateView, icons: bool) -> Seq<char> {
    " "@ + repeat_sign(state.repeat, icons) + " "@ + shuffle_sign(state.shuffle, icons) + " "@
        + playing_sign(state.playing, icons) + " | "@ + match state.current_track {
        Some(track) => track.display_name(),
        None => "Not Playing"@,
    }
}

/// The line that tells the state of playback.
pub fn playback_info(state: &MediaState, icons: bool) -> (line: String)
    ensures
        line@ == info_line(state@, icons),
{
    let repeat = match state.repeat {
        Repeat::All => if icons {
            "\u{f0456}"
        } else {
            "R"
        },
        Repeat::Off => if icons {
            "\u{f0457}"
        } else {
            "-"
        },
        Repeat::One => if icons {
            "\u{f0458}"
        } else {
            "1"
        },
    };
    let shuffle = if state.shuffle {
        if icons {
            "\u{f049d}"
        } else {
            "S"
        }
    } else if icons {
        "\u{f049e}"
    } else {
        "-"
    };
    let playing = if state.playing {
        if icons {
            "\u{f040a}"
        } else {
            ">"
        }
    } else if icons {
        "\u{f03e4}"
    } else {
        "-"
    };
    let name = match &state.current_track {
        Some(track) => track.display_name(),
        None => String::from_str("Not Playing"),
    };
    String::from_str(" ").concat(repeat).concat(" ").concat(shuffle).concat(" ").concat(
        playing,
    ).concat(" | ").concat(name.as_str())
}

/// An optional number in decimal digits; nothing where there is none.
pub open spec fn number_or_nothing(number: Option<u32>) -> Seq<char> {
    match number {
        Some(n) => decimal_digits(n as nat),
        None => Seq::empty(),
    }
}

/// An optional number in decimal digits.
fn write_number(number: Option<u32>) -> (text: String)
    ensures
        text@ == number_or_nothing(number),
{
    match number {
        Some(n) => decimal(n as u64),
        None => String::new(),
    }
}

/// The width of column `column` of five columns that share `width` columns
/// of the terminal: an equal share, and one more for the first columns where
/// the shares do not add up.
pub open spec fn column_width(width: nat, column: nat) -> nat {
    if column < width % 5 {
        width / 5 + 1
    } else {
        width / 5
    }
}

/// The width of column `column` of five columns that share `width` columns.
pub fn share_of_width(width: usize, column: usize) -> (share: usize)
    ensures
        share == column_width(width as nat, column as nat),
{
    if column < width % 5 {
        width / 5 + 1
    } else {
        width / 5
    }
}

/// The length of a track as minutes and seconds.
pub open spec fn length_label(nanos: nat) -> Seq<char> {
    decimal_digits(nanos / NANOS_PER_SEC as nat / 60) + ":"@ + two_digits(
        nanos / NANOS_PER_SEC as nat % 60,
    )
}

/// The row of a track in a list that is `width` columns wide: its name, its
/// artist, its album, its year and its length, each in a column of its own.
pub open spec fn track_line(track: TrackView, width: nat) -> Seq<char> {
    widened(track.display_name(), column_width(width, 0), false) + widened(
        track.artist,
        column_width(width, 1),
        false,
    ) + widened(track.album, column_width(width, 2), false) + widened(
        number_or_nothing(track.year),
        column_width(width, 3),
        true,
    ) + widened(length_label(track.length), column_width(width, 4), true)
}

/// The row of a track in a list that is `width` columns wide.
pub fn track_row(track: &Track, width: usize) -> (row: String)
    ensures
        row@ == track_line(track@, width as nat),
{
    let secs = track.length.as_secs();
    let length = decimal(secs / 60).concat(":").concat(write_two_digits(secs % 60).as_str());
    to_width(track.display_name().as_str(), share_of_width(width, 0), false).concat(
        to_width(track.artist.as_str(), share_of_width(width, 1), false).as_str(),
    ).concat(to_width(track.album.as_str(), share_of_width(width, 2), false).as_str()).concat(
        to_width(write_number(track.year).as_str(), share_of_width(width, 3), true).as_str(),
    ).concat(to_width(length.as_str(), share_of_width(width, 4), true).as_str())
}

/// The room for the name of an album in a terminal of `terminal_width`
/// columns: half the terminal without the two borders and the four columns
/// of the year.
pub open spec fn album_name_width(terminal_width: nat) -> nat {
    if terminal_width / 2 >= 6 {
        (terminal_width / 2 - 6) as nat
    } else {
        0
    }
}

/// The row of an album in a terminal of `terminal_width` columns: its name
/// and its year.
pub open spec fn album_line(album: AlbumView, terminal_width: nat) -> Seq<char> {
    widened(album.name, album_name_width(terminal_width), false) + number_or_nothing(album.year)
}

/// The row of an album in a terminal of `terminal_width` columns.
pub fn album_row(album: &Album, terminal_width: usize) -> (row: String)
    ensures
        row@ == album_line(album@, terminal_width as nat),
{
    let half = terminal_width / 2;
    let room: usize = if half >= 6 {
        half - 6
    } else {
        0
    };
    to_width(album.name.as_str(), room, false).concat(write_number(album.year).as_str())
}

} // verus!
