//! The mathematical model of the application: its state, the stored record,
//! the interactions, and the functions between them.
//!
//! Numbers are counts of thousandths, as in [`crate::decimal::Decimal`].

use vstd::prelude::*;
use crate::decimal::{clamp, saturate};
use crate::event::Command;
use crate::target::Target;

verus! {

/// The value of a state that was never stored: 2.7.
pub const DEFAULT_VALUE_THOUSANDTHS: i64 = 2700;

/// The lower end of the slider: 0.0.
pub const SLIDER_MIN_THOUSANDTHS: i64 = 0;

/// The upper end of the slider: 10.0.
pub const SLIDER_MAX_THOUSANDTHS: i64 = 10_000;

/// What one click on the button adds: 1.0.
pub const INCREMENT_THOUSANDTHS: i64 = 1000;

/// The state of the application.
pub struct AppView {
    pub label: Seq<char>,
    pub value: int,
}

/// A stored record. A field is `None` where the record does not hold it,
/// as a record written by an older version of the program may not.
pub struct PersistedView {
    pub label: Option<Seq<char>>,
    pub value: Option<int>,
}

/// One interaction of the user with a frame.
pub enum EventView {
    LabelEdited(Seq<char>),
    SliderMoved(int),
    IncrementClicked,
    QuitClicked,
}

/// Whether the value of a state fits the machine word that holds it, as
/// the value of every state of a running application does.
pub open spec fn representable(state: AppView) -> bool {
    i64::MIN <= state.value <= i64::MAX
}

/// The label of a state that was never stored.
pub open spec fn default_label() -> Seq<char> {
    "Hello World!"@
}

/// The state of an application that starts without a usable record.
pub open spec fn default_view() -> AppView {
    AppView { label: default_label(), value: DEFAULT_VALUE_THOUSANDTHS as int }
}

/// The state that an application starts in, given what was found in the
/// store: `None` where nothing was stored or what was stored could not be
/// decoded. Each field that the record lacks takes its default.
pub open spec fn restored(found: Option<PersistedView>) -> AppView {
    match found {
        None => default_view(),
        Some(record) => AppView {
            label: match record.label {
                Some(label) => label,
                None => default_label(),
            },
            value: match record.value {
                Some(value) => value,
                None => DEFAULT_VALUE_THOUSANDTHS as int,
            },
        },
    }
}

/// The record that is stored for a state: both fields, as they are.
pub open spec fn persisted(state: AppView) -> PersistedView {
    PersistedView { label: Some(state.label), value: Some(state.value) }
}

/// Whether `value` lies within the range that the slider displays.
pub open spec fn on_slider(value: int) -> bool {
    SLIDER_MIN_THOUSANDTHS <= value <= SLIDER_MAX_THOUSANDTHS
}

/// The state after one interaction.
///
/// Typing replaces the label. A move of the slider sets the value to the
/// position, brought to the nearer end of the slider's scale where it lies
/// outside. The button adds one whole unit, whatever the value is: only the
/// width of the machine word ends the climb.
pub open spec fn step(state: AppView, event: EventView) -> AppView {
    match event {
        EventView::LabelEdited(text) => AppView { label: text, value: state.value },
        EventView::SliderMoved(position) => AppView {
            label: state.label,
            value: clamp(
                position,
                SLIDER_MIN_THOUSANDTHS as int,
                SLIDER_MAX_THOUSANDTHS as int,
            ),
        },
        EventView::IncrementClicked => AppView {
            label: state.label,
            value: saturate(state.value + INCREMENT_THOUSANDTHS),
        },
        EventView::QuitClicked => state,
    }
}

/// What the runtime is asked to do after one interaction.
pub open spec fn command_for(target: Target, event: EventView) -> Option<Command> {
    if event is QuitClicked && target.supports_process_exit {
        Some(Command::CloseViewport)
    } else {
        None
    }
}

/// The state after `clicks` clicks on the button.
pub open spec fn after_increments(state: AppView, clicks: nat) -> AppView
    decreases clicks,
{
    if clicks == 0 {
        state
    } else {
        step(after_increments(state, (clicks - 1) as nat), EventView::IncrementClicked)
    }
}

} // verus!
