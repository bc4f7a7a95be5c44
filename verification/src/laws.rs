//! Laws of the edit state machine, proved over the ghost model
//! [`EditState`] and its transition [`step_state`]. Every executable
//! operation's contract says its effect *is* `step_state`, so these laws
//! carry over to the executable editor.

use vstd::prelude::*;

use crate::editor::{removes, step_state, wf_state, EditState, KeyAction};

verus! {

/// Every key action keeps the cursor invariant: the cursor never runs past
/// the end of the buffer, and deletions re-clamp it implicitly.
pub proof fn lemma_step_preserves_wf(m: EditState, action: KeyAction, clear_on_submit: bool)
    requires
        wf_state(m),
    ensures
        wf_state(step_state(m, action, clear_on_submit)),
{
}

/// Run a whole sequence of key actions, first to last.
pub open spec fn apply_actions(m: EditState, actions: Seq<KeyAction>, clear_on_submit: bool) -> EditState
    decreases actions.len(),
{
    if actions.len() == 0 {
        m
    } else {
        apply_actions(step_state(m, actions[0], clear_on_submit), actions.drop_first(), clear_on_submit)
    }
}

/// How many of the actions insert a character (every `Char` does).
pub open spec fn num_inserts(actions: Seq<KeyAction>) -> nat
    decreases actions.len(),
{
    if actions.len() == 0 {
        0
    } else {
        (if actions[0] is Char { 1nat } else { 0nat }) + num_inserts(actions.drop_first())
    }
}

/// How many of the actions, run from `m`, actually remove a character; a
/// backspace at the start or a delete with nothing at the cursor removes
/// none.
pub open spec fn num_removes(m: EditState, actions: Seq<KeyAction>, clear_on_submit: bool) -> nat
    decreases actions.len(),
{
    if actions.len() == 0 {
        0
    } else {
        (if removes(m, actions[0]) { 1nat } else { 0nat }) + num_removes(
            step_state(m, actions[0], clear_on_submit),
            actions.drop_first(),
            clear_on_submit,
        )
    }
}

/// Law: over any sequence of edit and navigation actions without a submit,
/// the character count moves by exactly the number of inserts minus the
/// number of removals actually performed — no-op keys change no count.
pub proof fn lemma_char_count_tracks_edits(
    m: EditState,
    actions: Seq<KeyAction>,
    clear_on_submit: bool,
)
    requires
        wf_state(m),
        forall|i: int| 0 <= i < actions.len() ==> !(#[trigger] actions[i] is Enter),
    ensures
        wf_state(apply_actions(m, actions, clear_on_submit)),
        apply_actions(m, actions, clear_on_submit).text.len() as int == m.text.len()
            + num_inserts(actions) - num_removes(m, actions, clear_on_submit),
    decreases actions.len(),
{
    if actions.len() > 0 {
        let m1 = step_state(m, actions[0], clear_on_submit);
        lemma_step_preserves_wf(m, actions[0], clear_on_submit);
        assert(forall|i: int|
            0 <= i < actions.drop_first().len() ==> !(#[trigger] actions.drop_first()[i] is Enter));
        lemma_char_count_tracks_edits(m1, actions.drop_first(), clear_on_submit);
    }
}

/// Law: every whole sequence of key actions — submits included — keeps the
/// cursor invariant.
pub proof fn lemma_apply_preserves_wf(m: EditState, actions: Seq<KeyAction>, clear_on_submit: bool)
    requires
        wf_state(m),
    ensures
        wf_state(apply_actions(m, actions, clear_on_submit)),
    decreases actions.len(),
{
    if actions.len() > 0 {
        lemma_step_preserves_wf(m, actions[0], clear_on_submit);
        lemma_apply_preserves_wf(
            step_state(m, actions[0], clear_on_submit),
            actions.drop_first(),
            clear_on_submit,
        );
    }
}

/// Law: moving left and then right restores the original state exactly,
/// wherever the round trip starts with a character before the cursor; on an
/// empty buffer both legs are no-ops and the round trip is an identity too.
/// (At the start of a non-empty buffer the left leg is a no-op but the
/// right leg still advances, so that boundary is left out.)
pub proof fn lemma_move_left_right_round_trip(m: EditState, clear_on_submit: bool)
    requires
        wf_state(m),
        1 <= m.cursor || m.text.len() == 0,
    ensures
        step_state(
            step_state(m, KeyAction::Left, clear_on_submit),
            KeyAction::Right,
            clear_on_submit,
        ) == m,
{
    assert(step_state(
        step_state(m, KeyAction::Left, clear_on_submit),
        KeyAction::Right,
        clear_on_submit,
    ) =~= m);
}

/// Law: inserting a character and immediately backspacing restores buffer
/// and cursor exactly — insert and backspace are inverses for single
/// characters.
pub proof fn lemma_insert_backspace_round_trip(m: EditState, c: char, clear_on_submit: bool)
    requires
        wf_state(m),
    ensures
        step_state(
            step_state(m, KeyAction::Char(c), clear_on_submit),
            KeyAction::Backspace,
            clear_on_submit,
        ) == m,
{
    assert(m.text.insert(m.cursor as int, c).remove(m.cursor as int) =~= m.text);
    assert(step_state(
        step_state(m, KeyAction::Char(c), clear_on_submit),
        KeyAction::Backspace,
        clear_on_submit,
    ) =~= m);
}

} // verus!
