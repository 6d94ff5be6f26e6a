//! Which screen of the monitor is shown.
use vstd::prelude::*;

verus! {

/// The two screens of the monitor.
#[derive(Clone, Copy, PartialEq, Eq, Structural, Debug)]
pub enum Menu {
    Main,
    Settings,
}

/// The screen that the toggle button leads to from `m`.
pub open spec fn other_menu(m: Menu) -> Menu {
    match m {
        Menu::Main => Menu::Settings,
        Menu::Settings => Menu::Main,
    }
}

/// Law: pressing the toggle button twice comes back to the same screen.
pub proof fn lemma_toggle_twice(m: Menu)
    ensures
        other_menu(other_menu(m)) == m,
        other_menu(m) != m,
{
}

impl Menu {
    /// The screen that the toggle button leads to, and the button's caption.
    pub fn toggle_target(&self) -> (r: (Menu, &'static str))
        ensures
            r.0 == other_menu(*self),
            r.1@ == (match *self {
                Menu::Main => "Settings"@,
                Menu::Settings => "Back"@,
            }),
    {
        match self {
            Menu::Main => (Menu::Settings, "Settings"),
            Menu::Settings => (Menu::Main, "Back"),
        }
    }
}

} // verus!
