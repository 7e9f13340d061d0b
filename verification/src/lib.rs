//! State controller of a small immediate-mode GUI application.
//!
//! The application shows a window with a menu bar, a text field, a slider,
//! a button that increments a counter and a decorative circle, and keeps a
//! label and a numeric value across restarts.
//!
//! This crate holds everything the application decides: the state and its
//! defaults, how a stored record becomes a state and a state a record, what a
//! frame declares, and how the state reacts to each interaction. Drawing,
//! windowing and storage belong to the UI runtime around it.

pub mod decimal;
pub mod event;
pub mod frame;
pub mod laws;
pub mod model;
pub mod state;
pub mod target;

pub use decimal::Decimal;
pub use event::{Command, Event};
pub use frame::{CircleOutline, Color, Frame, MenuItem, Widget};
pub use state::{PersistedState, TemplateApp};
pub use target::Target;
