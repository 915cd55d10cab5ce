//! What can be kept as text and read back from it.

use crate::playlist::{text_views, PlaylistError};
use vstd::prelude::*;

verus! {

/// Values that can be written down as the text of a file.
pub trait Save {
    /// The text that the value is kept as.
    spec fn saved(&self) -> Seq<char>;

    /// The text that the value is kept as.
    fn save(&self) -> (text: String)
        ensures
            text@ == self.saved(),
    ;
}

/// Values that can be read from the lines of a file.
pub trait Load: Sized {
    /// Whether `outcome` is what reading `lines` comes to.
    spec fn is_loaded(lines: Seq<Seq<char>>, outcome: Result<Self, PlaylistError>) -> bool;

    /// Reads a value from the lines of a file, given without their line
    /// ends.
    fn load(lines: &Vec<String>) -> (outcome: Result<Self, PlaylistError>)
        ensures
            Self::is_loaded(text_views(lines@), outcome),
    ;
}

} // verus!
