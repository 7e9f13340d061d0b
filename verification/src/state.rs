//! The application state and the record that keeps it across restarts.

use vstd::prelude::*;
use crate::decimal::Decimal;
use crate::event::{Command, Event};
use crate::model::{
    command_for, default_view, persisted, representable, restored, step, AppView, PersistedView,
    DEFAULT_VALUE_THOUSANDTHS, INCREMENT_THOUSANDTHS, SLIDER_MAX_THOUSANDTHS,
    SLIDER_MIN_THOUSANDTHS,
};
use crate::target::Target;

verus! {

/// What the store held for the application, field by field.
///
/// A field is `None` where the stored record does not have it.
#[derive(Debug, PartialEq, Eq)]
pub struct PersistedState {
    pub label: Option<String>,
    pub value: Option<Decimal>,
}

impl View for PersistedState {
    type V = PersistedView;

    open spec fn view(&self) -> PersistedView {
        PersistedView {
            label: match self.label {
                Some(label) => Some(label@),
                None => None,
            },
            value: match self.value {
                Some(value) => Some(value@),
                None => None,
            },
        }
    }
}

impl Clone for PersistedState {
    /// A record with the same fields.
    fn clone(&self) -> (copy: PersistedState)
        ensures
            copy@ == self@,
    {
        let label = match &self.label {
            Some(label) => Some(label.clone()),
            None => None,
        };
        PersistedState { label, value: self.value }
    }
}

/// The model of what was found in the store.
pub open spec fn found_view(found: Option<PersistedState>) -> Option<PersistedView> {
    match found {
        Some(record) => Some(record@),
        None => None,
    }
}

/// The state of the application: a label that the user edits and a number
/// that the slider and the button change.
#[derive(Debug, PartialEq, Eq)]
pub struct TemplateApp {
    label: String,
    value: Decimal,
}

impl View for TemplateApp {
    type V = AppView;

    closed spec fn view(&self) -> AppView {
        AppView { label: self.label@, value: self.value@ }
    }
}

impl Clone for TemplateApp {
    /// A state with the same label and value.
    fn clone(&self) -> (copy: TemplateApp)
        ensures
            copy@ == self@,
    {
        TemplateApp { label: self.label.clone(), value: self.value }
    }
}

impl Default for TemplateApp {
    /// The state of an application that starts without a stored record:
    /// the label "Hello World!" and the value 2.7.
    fn default() -> (app: TemplateApp)
        ensures
            app@ == default_view(),
    {
        TemplateApp {
            label: "Hello World!".to_owned(),
            value: Decimal::from_thousandths(DEFAULT_VALUE_THOUSANDTHS),
        }
    }
}

impl TemplateApp {
    /// The state that the application starts in.
    ///
    /// `found` is what the store held: `None` where it held nothing, or
    /// something that could not be decoded. Then the state is the default.
    /// Otherwise each field of the record is taken as it is, and a field
    /// that the record lacks takes its default. Nothing is ever reported as
    /// an error.
    pub fn new(found: Option<PersistedState>) -> (app: TemplateApp)
        ensures
            app@ == restored(found_view(found)),
    {
        match found {
            None => TemplateApp::default(),
            Some(record) => {
                let fallback = TemplateApp::default();
                let label = match record.label {
                    Some(label) => label,
                    None => fallback.label,
                };
                let value = match record.value {
                    Some(value) => value,
                    None => fallback.value,
                };
                TemplateApp { label, value }
            },
        }
    }

    /// The record to store for this state: both fields, as they are.
    pub fn save(&self) -> (record: PersistedState)
        ensures
            record@ == persisted(self@),
    {
        PersistedState { label: Some(self.label.clone()), value: Some(self.value) }
    }

    /// The label.
    pub fn label(&self) -> (label: &str)
        ensures
            label@ == self@.label,
    {
        self.label.as_str()
    }

    /// The value.
    pub fn value(&self) -> (value: Decimal)
        ensures
            value@ == self@.value,
    {
        self.value
    }

    /// The value of a state in memory is one that can be held.
    pub proof fn lemma_representable(&self)
        ensures
            representable(self@),
    {
        self.value.lemma_view_in_range();
    }

    /// Applies one interaction to the state and says what the runtime is
    /// asked to do.
    ///
    /// Typing replaces the label with the new text. Dragging the slider sets
    /// the value to the position, which the slider keeps between 0.0 and
    /// 10.0. A click on "Increment" adds 1.0 to the value wherever it
    /// stands, also beyond the slider's upper end; the value stops only at
    /// the largest number that a `Decimal` holds. "Quit" leaves the state as
    /// it is and asks the runtime to close the window, where the target can
    /// exit at all.
    pub fn update(&mut self, target: &Target, event: Event) -> (command: Option<Command>)
        ensures
            final(self)@ == step(old(self)@, event@),
            command == command_for(*target, event@),
    {
        match event {
            Event::LabelEdited(text) => {
                self.label = text;
                None
            },
            Event::SliderMoved(position) => {
                let low = Decimal::from_thousandths(SLIDER_MIN_THOUSANDTHS);
                let high = Decimal::from_thousandths(SLIDER_MAX_THOUSANDTHS);
                self.value = position.clamped(low, high);
                None
            },
            Event::IncrementClicked => {
                let one = Decimal::from_thousandths(INCREMENT_THOUSANDTHS);
                self.value = self.value.saturating_add(one);
                None
            },
            Event::QuitClicked => {
                if target.supports_process_exit {
                    Some(Command::CloseViewport)
                } else {
                    None
                }
            },
        }
    }
}

} // verus!
