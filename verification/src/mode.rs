//! The mode state machine: the application is always in exactly one of two
//! modes, and the only transition is the toggle between them.

use vstd::prelude::*;

verus! {

/// The two interaction modes. In `NavigationMode` keystrokes are commands;
/// in `ChatMode` keystrokes compose a message.
#[derive(Debug, Clone, Copy, PartialEq, Eq, Structural)]
pub enum AppMode {
    NavigationMode,
    ChatMode,
}

impl AppMode {
    /// The toggled mode, as a mathematical function.
    pub open spec fn spec_toggle(self) -> AppMode {
        match self {
            AppMode::ChatMode => AppMode::NavigationMode,
            AppMode::NavigationMode => AppMode::ChatMode,
        }
    }

    /// Switch to the other mode. Pure: no effect beyond the returned value.
    pub fn toggle(self) -> (r: Self)
        ensures
            r == self.spec_toggle(),
    {
        match self {
            Self::ChatMode => Self::NavigationMode,
            Self::NavigationMode => Self::ChatMode,
        }
    }

    /// Human-readable name of the mode, shown in the mode pane.
    pub fn label(self) -> (r: &'static str)
        ensures
            self == AppMode::ChatMode ==> r@ == "Chat Mode"@,
            self == AppMode::NavigationMode ==> r@ == "Navigation Mode"@,
    {
        match self {
            Self::ChatMode => "Chat Mode",
            Self::NavigationMode => "Navigation Mode",
        }
    }

    /// Name of the colour the mode pane is drawn in.
    pub fn color_name(self) -> (r: &'static str)
        ensures
            self == AppMode::ChatMode ==> r@ == "lightblue"@,
            self == AppMode::NavigationMode ==> r@ == "green"@,
    {
        match self {
            Self::ChatMode => "lightblue",
            Self::NavigationMode => "green",
        }
    }
}

impl Default for AppMode {
    /// The application starts in navigation mode.
    fn default() -> (r: Self)
        ensures
            r == AppMode::NavigationMode,
    {
        AppMode::NavigationMode
    }
}

/// Law: toggling is an involution — toggling twice returns to the
/// starting mode, for every mode.
pub proof fn lemma_toggle_involution(m: AppMode)
    ensures
        m.spec_toggle().spec_toggle() == m,
{
}

} // verus!
