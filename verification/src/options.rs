//! How the diagram is to be drawn.

use vstd::prelude::*;

verus! {

/// The display options that the user can switch.
#[derive(Clone, Copy, Debug, PartialEq, Eq, Structural, Hash)]
pub struct Options {
    dark: bool,
    colored_background: bool,
}

impl Options {
    /// Whether the dark theme is chosen.
    pub closed spec fn dark(self) -> bool {
        self.dark
    }

    /// Whether the background of the diagram is colored.
    pub closed spec fn colored(self) -> bool {
        self.colored_background
    }

    /// Checks if the dark theme is chosen.
    pub fn is_dark(&self) -> (dark: bool)
        ensures
            dark == self.dark(),
    {
        self.dark
    }

    /// Chooses between the dark and the light theme.
    pub fn set_dark(&mut self, value: bool)
        ensures
            final(self).dark() == value,
            final(self).colored() == old(self).colored(),
    {
        self.dark = value;
    }

    /// Checks if the background of the diagram is colored.
    pub fn is_colored(&self) -> (colored: bool)
        ensures
            colored == self.colored(),
    {
        self.colored_background
    }

    /// Switches the colored background of the diagram on or off.
    pub fn set_colored(&mut self, value: bool)
        ensures
            final(self).colored() == value,
            final(self).dark() == old(self).dark(),
    {
        self.colored_background = value;
    }
}

impl Default for Options {
    /// The light theme, without a colored background.
    fn default() -> (options: Self)
        ensures
            !options.dark(),
            !options.colored(),
    {
        Options { dark: false, colored_background: false }
    }
}

} // verus!
