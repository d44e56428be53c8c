use vstd::prelude::*;

verus! {

/// The looks of the buttons of the application.
#[derive(Debug, Clone, Copy, PartialEq, Eq)]
pub enum Button {
    Start,
    Stop,
    Post,
    Primary,
    Destructive,
}

/// The title bar of a pane, drawn by whether its pane has the focus.
#[derive(Debug, Clone, Copy, PartialEq, Eq)]
pub struct TitleBar {
    pub is_focused: bool,
}

/// A pane, drawn by whether it has the focus.
#[derive(Debug, Clone, Copy, PartialEq, Eq)]
pub struct Pane {
    pub is_focused: bool,
}

} // verus!
