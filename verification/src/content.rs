use vstd::prelude::*;
use crate::style;

verus! {

/// What a pane of the channel grid shows: its number and the channel it follows.
#[derive(Debug, Clone)]
pub struct Content {
    pub id: usize,
    pub channel_name: String,
}

/// A control button of a pane.
#[derive(Debug, Clone, Copy, PartialEq, Eq)]
pub enum PaneControl {
    /// Split the pane along the horizontal axis.
    SplitHorizontal,
    /// Split the pane along the vertical axis.
    SplitVertical,
    /// Close the pane.
    Close,
}

impl PaneControl {
    /// The label of the button: `H`, `V` or `X`.
    pub fn label(&self) -> (r: &'static str)
        ensures
            *self == PaneControl::SplitHorizontal ==> r@ == "H"@,
            *self == PaneControl::SplitVertical ==> r@ == "V"@,
            *self == PaneControl::Close ==> r@ == "X"@,
    {
        match self {
            PaneControl::SplitHorizontal => "H",
            PaneControl::SplitVertical => "V",
            PaneControl::Close => "X",
        }
    }

    /// The look of the button; all of them look the same.
    pub fn style(&self) -> (r: style::Button)
        ensures
            r == style::Button::Primary,
    {
        style::Button::Primary
    }
}

impl Content {
    /// The pane numbered `id`; the channels are handed out in turn, so it follows the channel
    /// at `id` modulo the number of channels.
    pub fn new(id: usize, channel_list: &Vec<String>) -> (r: Self)
        requires
            channel_list.len() > 0,
        ensures
            r.id == id,
            r.channel_name@ == channel_list@[id as int % channel_list.len() as int]@,
    {
        Content { id, channel_name: channel_list[id % channel_list.len()].clone() }
    }

    /// The control buttons of the pane, top to bottom, when the grid has `total_panes` panes:
    /// splitting horizontally, splitting vertically, and closing, which is offered only while
    /// there is more than one pane.
    pub fn controls(&self, total_panes: usize) -> (r: Vec<PaneControl>)
        ensures
            total_panes > 1 ==> r@ == seq![
                PaneControl::SplitHorizontal,
                PaneControl::SplitVertical,
                PaneControl::Close,
            ],
            total_panes <= 1 ==> r@ == seq![
                PaneControl::SplitHorizontal,
                PaneControl::SplitVertical,
            ],
    {
        let mut controls = Vec::new();
        controls.push(PaneControl::SplitHorizontal);
        controls.push(PaneControl::SplitVertical);
        if total_panes > 1 {
            controls.push(PaneControl::Close);
        }
        controls
    }
}

} // verus!
