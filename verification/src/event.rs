//! Interactions of the user with a frame, and what the runtime may be asked
//! to do in answer.

use vstd::prelude::*;
use crate::decimal::Decimal;
use crate::model::EventView;

verus! {

/// One interaction of the user with a frame.
#[derive(Debug, PartialEq, Eq)]
pub enum Event {
    /// The text field now holds this text.
    LabelEdited(String),
    /// The slider was moved to this position.
    SliderMoved(Decimal),
    /// The button "Increment" was clicked.
    IncrementClicked,
    /// The action "Quit" of the menu "File" was chosen.
    QuitClicked,
}

/// A request to the runtime.
#[derive(Clone, Copy, Debug, PartialEq, Eq, Structural)]
pub enum Command {
    /// Close the application window. The runtime decides how it shuts down.
    CloseViewport,
}

impl View for Event {
    type V = EventView;

    open spec fn view(&self) -> EventView {
        match self {
            Event::LabelEdited(text) => EventView::LabelEdited(text@),
            Event::SliderMoved(position) => EventView::SliderMoved(position@),
            Event::IncrementClicked => EventView::IncrementClicked,
            Event::QuitClicked => EventView::QuitClicked,
        }
    }
}

} // verus!
