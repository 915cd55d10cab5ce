//! Text fitted to the columns of a terminal.

use unicode_width::UnicodeWidthStr;
use vstd::prelude::*;
use vstd::string::{StrSliceExecFns, StringExecFns};

verus! {

/// The number of terminal columns that `text` takes up.
pub uninterp spec fn columns(text: Seq<char>) -> nat;

/// The number of terminal columns that `text` takes up.
///
/// Calls `width` of `UnicodeWidthStr`, which returns the displayed width of
/// the text in columns, counting characters of ambiguous width as one
/// column. The width depends on the text alone; what it is for a given text
/// is left to that crate.
#[verifier::external_body]
fn display_width(text: &str) -> (width: usize)
    ensures
        width == columns(text@),
{
    UnicodeWidthStr::width(text)
}

/// `text` without as many of its last characters as have to go for it to
/// take up less than `limit` columns.
pub open spec fn shortened(text: Seq<char>, limit: nat) -> Seq<char>
    decreases text.len(),
{
    if text.len() > 0 && columns(text) >= limit {
        shortened(text.drop_last(), limit)
    } else {
        text
    }
}

/// `count` spaces.
pub open spec fn spaces(count: nat) -> Seq<char> {
    Seq::new(count, |i: int| ' ')
}

/// Whether `text` is too wide for `width` columns and has to be cut short:
/// it is when it leaves no column free.
pub open spec fn is_cut(text: Seq<char>, width: nat) -> bool {
    columns(text) + 1 >= width
}

/// `text` as it is shown in `width` columns before any padding: as it is
/// where it leaves a column free, else cut short to leave room for three
/// dots, which follow it.
pub open spec fn fitted(text: Seq<char>, width: nat) -> Seq<char> {
    if is_cut(text, width) {
        shortened(
            text,
            if width >= 4 {
                (width - 4) as nat
            } else {
                0
            },
        ) + "..."@
    } else {
        text
    }
}

/// `text` made `width` columns wide: cut short with three dots where it is
/// too wide, and padded with spaces, before it or after it, where it is too
/// narrow. Where even the three dots are too wide nothing is padded.
pub open spec fn widened(text: Seq<char>, width: nat, right_align: bool) -> Seq<char> {
    let shown = fitted(text, width);
    let padding = spaces(
        if width >= columns(shown) {
            (width - columns(shown)) as nat
        } else {
            0
        },
    );
    if right_align {
        padding + shown
    } else {
        shown + padding
    }
}

/// Whether a text of `text_columns` columns has to be cut short to be shown
/// in `width` columns.
pub fn is_too_wide(text_columns: usize, width: usize) -> (cut: bool)
    ensures
        cut == (text_columns + 1 >= width),
{
    width == 0 || text_columns >= width - 1
}

/// The number of spaces that make a text of `text_columns` columns `width`
/// columns wide.
pub fn padding_needed(text_columns: usize, width: usize) -> (count: usize)
    ensures
        count == if width >= text_columns {
            width - text_columns
        } else {
            0
        },
{
    if width >= text_columns {
        width - text_columns
    } else {
        0
    }
}

/// `count` spaces.
fn padding(count: usize) -> (text: String)
    ensures
        text@ == spaces(count as nat),
{
    let mut text = String::new();
    let mut i: usize = 0;
    assert(text@ =~= spaces(0));
    while i < count
        invariant
            i <= count,
            text@ == spaces(i as nat),
        decreases count - i,
    {
        proof {
            reveal_strlit(" ");
        }
        text.append(" ");
        i += 1;
        assert(text@ =~= spaces(i as nat));
    }
    text
}

/// Makes `s` exactly `width` columns wide, cutting it short with three dots
/// or padding it with spaces as necessary.
pub fn to_width(s: &str, width: usize, right_align: bool) -> (text: String)
    ensures
        text@ == widened(s@, width as nat, right_align),
{
    let cut = is_too_wide(display_width(s), width);
    let shown = if cut {
        let limit: usize = if width >= 4 {
            width - 4
        } else {
            0
        };
        let mut kept: usize = s.unicode_len();
        assert(s@.subrange(0, kept as int) =~= s@);
        while kept > 0 && display_width(s.substring_char(0, kept)) >= limit
            invariant
                kept <= s@.len(),
                shortened(s@, limit as nat) == shortened(s@.subrange(0, kept as int), limit as nat),
            decreases kept,
        {
            assert(s@.subrange(0, kept as int).drop_last() =~= s@.subrange(0, kept - 1));
            kept -= 1;
        }
        String::from_str(s.substring_char(0, kept)).concat("...")
    } else {
        String::from_str(s)
    };
    let taken = display_width(shown.as_str());
    let fill = padding(padding_needed(taken, width));
    if right_align {
        fill.concat(shown.as_str())
    } else {
        shown.concat(fill.as_str())
    }
}

} // verus!
