//! The commands a user can invoke from the keyboard.

use vstd::prelude::*;

verus! {

/// A user-invocable command.
#[derive(Debug, Clone, Copy, PartialEq, Eq, Structural)]
pub enum Action {
    CloseWindow,
    ToggleFullscreen,
}

impl Action {
    /// The help text of this action, as a sequence of characters.
    pub open spec fn help_text(self) -> Seq<char> {
        match self {
            Action::CloseWindow => "Close window"@,
            Action::ToggleFullscreen => "Toggle fullscreen"@,
        }
    }

    /// The name of this action, as a sequence of characters.
    pub open spec fn name_text(self) -> Seq<char> {
        match self {
            Action::CloseWindow => "CloseWindow"@,
            Action::ToggleFullscreen => "ToggleFullscreen"@,
        }
    }

    /// Human-readable description of what the action does.
    pub fn help(&self) -> (text: &'static str)
        ensures
            text@ == self.help_text(),
    {
        match self {
            Action::CloseWindow => "Close window",
            Action::ToggleFullscreen => "Toggle fullscreen",
        }
    }

    /// The variant's name, which is how the action is shown to the user.
    pub fn name(&self) -> (text: &'static str)
        ensures
            text@ == self.name_text(),
    {
        match self {
            Action::CloseWindow => "CloseWindow",
            Action::ToggleFullscreen => "ToggleFullscreen",
        }
    }
}

} // verus!
