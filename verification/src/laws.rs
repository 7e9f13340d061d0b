//! What holds of the application whatever the user does: the laws that tie
//! starting, interacting and storing together.

use vstd::prelude::*;
use crate::model::{
    after_increments, default_label, default_view, on_slider, persisted, representable, restored,
    step, AppView, EventView, PersistedView, DEFAULT_VALUE_THOUSANDTHS, INCREMENT_THOUSANDTHS,
};

verus! {

/// A record that holds both fields gives exactly the state that it
/// describes.
pub proof fn lemma_restore_full_record(label: Seq<char>, value: int)
    ensures
        restored(Some(PersistedView { label: Some(label), value: Some(value) })) == (AppView {
            label,
            value,
        }),
{
}

/// Without a usable record the application starts with the label
/// "Hello World!" and the value 2.7.
pub proof fn lemma_restore_nothing()
    ensures
        restored(None) == default_view(),
        restored(None).label == "Hello World!"@,
        restored(None).value == 2700,
{
}

/// A field that the record lacks takes its default, and the other field
/// is taken from the record.
pub proof fn lemma_restore_partial_record(record: PersistedView)
    ensures
        record.label is None ==> restored(Some(record)).label == default_label(),
        record.value is None ==> restored(Some(record)).value == DEFAULT_VALUE_THOUSANDTHS,
        record.label matches Some(label) ==> restored(Some(record)).label == label,
        record.value matches Some(value) ==> restored(Some(record)).value == value,
{
}

/// Storing a state and starting from what was stored gives the state back.
pub proof fn lemma_round_trip(state: AppView)
    ensures
        restored(Some(persisted(state))) == state,
{
}

/// Clicks on the button add up: after `clicks` clicks the value is 1.0 per
/// click above where it started, as long as that number can be held, and
/// the label is untouched.
pub proof fn lemma_increments_add_up(state: AppView, clicks: nat)
    requires
        representable(state),
        state.value + clicks * INCREMENT_THOUSANDTHS <= i64::MAX,
    ensures
        after_increments(state, clicks).value == state.value + clicks * INCREMENT_THOUSANDTHS,
        after_increments(state, clicks).label == state.label,
    decreases clicks,
{
    if clicks > 0 {
        let before = (clicks - 1) as nat;
        assert(before * INCREMENT_THOUSANDTHS + INCREMENT_THOUSANDTHS == clicks
            * INCREMENT_THOUSANDTHS) by (nonlinear_arith)
            requires
                before + 1 == clicks,
        ;
        lemma_increments_add_up(state, before);
    }
}

/// From a fresh start, `clicks` clicks on the button bring the value to
/// 2.7 + `clicks`: nothing holds it at the slider's upper end.
pub proof fn lemma_increments_from_default(clicks: nat)
    requires
        DEFAULT_VALUE_THOUSANDTHS + clicks * INCREMENT_THOUSANDTHS <= i64::MAX,
    ensures
        after_increments(default_view(), clicks).value == 2700 + 1000 * clicks,
        after_increments(default_view(), clicks).label == default_label(),
{
    lemma_increments_add_up(default_view(), clicks);
    assert(clicks * INCREMENT_THOUSANDTHS == 1000 * clicks) by (nonlinear_arith);
}

/// Once the text field was edited to `text`, what is stored holds `text`
/// as its label, and the next start shows it.
pub proof fn lemma_edit_is_stored(state: AppView, text: Seq<char>)
    ensures
        persisted(step(state, EventView::LabelEdited(text))).label == Some(text),
        restored(Some(persisted(step(state, EventView::LabelEdited(text))))).label == text,
        step(state, EventView::LabelEdited(text)).value == state.value,
{
}

/// Only the button takes the value off the slider's scale: after any other
/// interaction a value that was on the scale still is, and after a move of
/// the slider it is on the scale wherever it was before.
pub proof fn lemma_only_increment_leaves_slider(state: AppView, event: EventView)
    ensures
        event is SliderMoved ==> on_slider(step(state, event).value),
        on_slider(state.value) && !(event is IncrementClicked) ==> on_slider(
            step(state, event).value,
        ),
{
}

/// Whatever the user does, the value of a running application stays one
/// that can be held.
pub proof fn lemma_step_keeps_representable(state: AppView, event: EventView)
    requires
        representable(state),
    ensures
        representable(step(state, event)),
{
}

} // verus!
