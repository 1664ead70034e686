//! The vocabulary that tabs, the host and the input layer agree on: what a
//! user may ask for, and what a tab may answer.

use crate::tab::Size;
use vstd::prelude::*;

verus! {

/// A user intent. The host forwards it as it is; what it means is for the
/// tab that gets it to say.
#[derive(Clone, Copy, Debug, PartialEq, Eq, Structural)]
pub enum Action {
    /// Go up, towards the start of what the tab shows.
    MoveUp,
    /// Go down, towards the end of what the tab shows.
    MoveDown,
    /// Pick the item that the tab is at.
    Select,
    /// Open the item that the tab is at.
    Open,
    /// Close the tab.
    Close,
    /// Type a character; meaningful to tabs that edit text.
    Insert(char),
    /// The terminal now has these dimensions.
    Resize(Size),
}

/// What a tab reports after processing one action.
#[derive(Debug, PartialEq, Eq)]
pub enum ActionReturn {
    /// Handled, no further effect.
    Good,
    /// The tab asks to be removed.
    CloseTab,
    /// The tab asks for a new tab over the given target.
    SpawnTab(String),
    /// Something went wrong; the reason is for the user.
    Error(String),
}

/// The mathematical value of an [`ActionReturn`]: texts are sequences of
/// characters.
pub enum Outcome {
    Good,
    CloseTab,
    SpawnTab(Seq<char>),
    Error(Seq<char>),
}

impl View for ActionReturn {
    type V = Outcome;

    open spec fn view(&self) -> Outcome {
        match *self {
            ActionReturn::Good => Outcome::Good,
            ActionReturn::CloseTab => Outcome::CloseTab,
            ActionReturn::SpawnTab(target) => Outcome::SpawnTab(target@),
            ActionReturn::Error(reason) => Outcome::Error(reason@),
        }
    }
}

impl DeepView for ActionReturn {
    type V = Outcome;

    open spec fn deep_view(&self) -> Outcome {
        self@
    }
}

} // verus!
