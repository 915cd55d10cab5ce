//! The names of what the configuration can set.

use vstd::prelude::*;

verus! {

/// The parts of the user interface that have a colour of their own.
#[derive(Clone, Copy, Debug, PartialEq, Eq, Hash, Structural)]
pub enum UiColor {
    Fg,
    HighlightFg,
    Bg,
    HighlightBg,
    OffPanelHighlight,
}

/// The switches of the configuration.
#[derive(Clone, Copy, Debug, PartialEq, Eq, Hash, Structural)]
pub enum ConfOption {
    NerdFontIcons,
    GaplessPlayback,
}

impl ConfOption {
    /// What a switch is set to where the configuration does not mention it:
    /// both are on.
    pub open spec fn default_setting(self) -> bool {
        true
    }

    /// What a switch is set to where the configuration does not mention it.
    pub fn default_value(self) -> (on: bool)
        ensures
            on == self.default_setting(),
    {
        true
    }
}

} // verus!
