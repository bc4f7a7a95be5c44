//! The text-edit core: a character buffer with a logical cursor.
//!
//! [`Input`] is the single authority over cursor movement; [`InputState`]
//! holds the buffer and the display column published for rendering. All
//! index arithmetic is in character units, never bytes, so a multi-byte
//! character counts as one unit.
//!
//! Each operation's effect on buffer and cursor is captured by the pure
//! transition [`step_state`] over the ghost [`EditState`] model; the laws in
//! [`crate::laws`] are proved over that model and transfer to the executable
//! operations through their contracts.

use vstd::prelude::*;

use crate::events::{InputChange, Text};
use crate::viewport;

verus! {

/// A discrete key action routed to the editor by the host widget.
#[derive(Debug, Clone, Copy, PartialEq, Eq, Structural)]
pub enum KeyAction {
    /// Type a character at the cursor.
    Char(char),
    /// Backspace: delete the character before the cursor.
    Backspace,
    /// Enter: submit the buffer.
    Enter,
    /// Move the cursor one character left.
    Left,
    /// Move the cursor one character right.
    Right,
    /// Jump to the start of the buffer.
    Home,
    /// Jump just past the last character.
    End,
    /// Forward delete: remove the character at the cursor.
    Delete,
}

/// The ghost model of the editor: the buffer as a sequence of characters and
/// the logical cursor as a position in `[0, text.len()]`.
#[verifier::ext_equal]
pub struct EditState {
    pub text: Seq<char>,
    pub cursor: nat,
}

/// The cursor invariant: it never runs past the end of the buffer.
pub open spec fn wf_state(m: EditState) -> bool {
    m.cursor <= m.text.len()
}

/// The pure transition of buffer and cursor under one key action.
///
/// Mutating actions whose precondition fails (backspace at the start,
/// forward delete with no character at the cursor, enter on an empty
/// buffer) are silent no-ops, never errors.
pub open spec fn step_state(m: EditState, action: KeyAction, clear_on_submit: bool) -> EditState
    recommends
        wf_state(m),
{
    match action {
        KeyAction::Char(c) => EditState {
            text: m.text.insert(m.cursor as int, c),
            cursor: m.cursor + 1,
        },
        KeyAction::Backspace => if m.cursor > 0 {
            EditState { text: m.text.remove(m.cursor - 1), cursor: (m.cursor - 1) as nat }
        } else {
            m
        },
        KeyAction::Enter => if m.text.len() > 0 && clear_on_submit {
            EditState { text: Seq::empty(), cursor: 0 }
        } else {
            m
        },
        KeyAction::Left => if m.cursor > 0 {
            EditState { text: m.text, cursor: (m.cursor - 1) as nat }
        } else {
            m
        },
        KeyAction::Right => if m.cursor < m.text.len() {
            EditState { text: m.text, cursor: m.cursor + 1 }
        } else {
            m
        },
        KeyAction::Home => EditState { text: m.text, cursor: 0 },
        KeyAction::End => EditState { text: m.text, cursor: m.text.len() },
        KeyAction::Delete => if m.cursor < m.text.len() {
            EditState { text: m.text.remove(m.cursor as int), cursor: m.cursor }
        } else {
            m
        },
    }
}

/// Whether one key action actually removes a character: a backspace with a
/// character before the cursor, or a forward delete with one at the cursor.
pub open spec fn removes(m: EditState, action: KeyAction) -> bool {
    ||| (action is Backspace && m.cursor > 0)
    ||| (action is Delete && m.cursor < m.text.len())
}

/// The change event one key action emits, if any: positions are reported as
/// the cursor value after the edit.
pub open spec fn change_of(m: EditState, action: KeyAction) -> Option<InputChange>
    recommends
        wf_state(m),
{
    match action {
        KeyAction::Char(c) => Some(InputChange::Insert(c, (m.cursor + 1) as usize)),
        KeyAction::Backspace => if m.cursor > 0 {
            Some(InputChange::Remove(m.text[m.cursor - 1], (m.cursor - 1) as usize))
        } else {
            None
        },
        KeyAction::Delete => if m.cursor < m.text.len() {
            Some(InputChange::Remove(m.text[m.cursor as int], m.cursor as usize))
        } else {
            None
        },
        _ => None,
    }
}

/// Whether one key action submits the buffer: enter with a non-empty buffer.
pub open spec fn submits(m: EditState, action: KeyAction) -> bool {
    action is Enter && m.text.len() > 0
}

/// The widget state published for rendering: the buffer and the display
/// column of the cursor inside the viewport.
pub struct InputState {
    text: Vec<char>,
    screen_cursor: usize,
}

impl InputState {
    /// The buffer as a sequence of characters.
    pub closed spec fn text_view(&self) -> Seq<char> {
        self.text@
    }

    /// The display column last published by a viewport re-clamp.
    pub closed spec fn screen_cursor_view(&self) -> nat {
        self.screen_cursor as nat
    }

    /// An empty buffer with the display column at the left edge.
    pub fn new() -> (r: Self)
        ensures
            r.text_view() == Seq::<char>::empty(),
            r.screen_cursor_view() == 0,
    {
        InputState { text: Vec::new(), screen_cursor: 0 }
    }

    /// How many characters the buffer holds; always queried fresh, never
    /// cached, because every mutation changes it.
    pub fn char_count(&self) -> (n: usize)
        ensures
            n == self.text_view().len(),
    {
        self.text.len()
    }

    /// The buffer's characters.
    pub fn text(&self) -> (r: &Vec<char>)
        ensures
            r@ == self.text_view(),
    {
        &self.text
    }

    /// The display column for rendering.
    pub fn screen_cursor(&self) -> (c: usize)
        ensures
            c == self.screen_cursor_view(),
    {
        self.screen_cursor
    }

    /// Publish a freshly clamped display column.
    fn update_cursor(&mut self, screen_cursor: usize)
        ensures
            final(self).text_view() == old(self).text_view(),
            final(self).screen_cursor_view() == screen_cursor as nat,
    {
        self.screen_cursor = screen_cursor;
    }
}

/// The edit cursor: a position in character units, in `[0, char_count]`.
pub struct Input {
    cursor: usize,
}

/// The ghost model of an editor/state pair.
pub open spec fn model(input: &Input, state: &InputState) -> EditState {
    EditState { text: state.text_view(), cursor: input.cursor_spec() }
}

impl Input {
    /// The logical cursor position.
    pub closed spec fn cursor_spec(&self) -> nat {
        self.cursor as nat
    }

    /// The cursor invariant against a given state: never past the end.
    pub open spec fn wf(&self, state: &InputState) -> bool {
        self.cursor_spec() <= state.text_view().len()
    }

    /// A fresh editor with the cursor at the start.
    pub fn new() -> (r: Self)
        ensures
            r.cursor_spec() == 0,
    {
        Input { cursor: 0 }
    }

    /// The logical cursor position, in character units.
    pub fn cursor(&self) -> (c: usize)
        ensures
            c == self.cursor_spec(),
    {
        self.cursor
    }

    /// Insert `c` at the cursor: append when the cursor sits at the end,
    /// splice in the middle otherwise. The cursor advances past the new
    /// character. Accepts any Unicode scalar value.
    pub fn insert_char(&mut self, c: char, state: &mut InputState)
        requires
            old(self).wf(old(state)),
            old(state).text_view().len() < usize::MAX,
        ensures
            final(self).wf(final(state)),
            model(final(self), final(state)) == step_state(
                model(old(self), old(state)),
                KeyAction::Char(c),
                true,
            ),
            final(state).screen_cursor_view() == old(state).screen_cursor_view(),
    {
        if self.cursor == state.text.len() {
            state.text.push(c);
            proof {
                assert(state.text@ =~= old(state).text@.insert(old(self).cursor as int, c));
            }
        } else {
            state.text.insert(self.cursor, c);
        }
        self.cursor = self.cursor + 1;
    }

    /// Backspace: with a character before the cursor, step the cursor back
    /// and remove the character it now points at, reporting it at the new
    /// cursor position. At the start of the buffer, a silent no-op.
    pub fn delete_before(&mut self, state: &mut InputState) -> (r: Option<InputChange>)
        requires
            old(self).wf(old(state)),
        ensures
            final(self).wf(final(state)),
            model(final(self), final(state)) == step_state(
                model(old(self), old(state)),
                KeyAction::Backspace,
                true,
            ),
            r == change_of(model(old(self), old(state)), KeyAction::Backspace),
            final(state).screen_cursor_view() == old(state).screen_cursor_view(),
    {
        if self.cursor > 0 {
            self.cursor = self.cursor - 1;
            let c = state.text.remove(self.cursor);
            Some(InputChange::Remove(c, self.cursor))
        } else {
            None
        }
    }

    /// Forward delete: with a character at the cursor, remove it; the cursor
    /// does not move and now points at the next character or at the end.
    /// With nothing at the cursor (empty buffer, or cursor at the end), a
    /// silent no-op.
    pub fn delete_at(&mut self, state: &mut InputState) -> (r: Option<InputChange>)
        requires
            old(self).wf(old(state)),
        ensures
            final(self).wf(final(state)),
            model(final(self), final(state)) == step_state(
                model(old(self), old(state)),
                KeyAction::Delete,
                true,
            ),
            r == change_of(model(old(self), old(state)), KeyAction::Delete),
            final(state).screen_cursor_view() == old(state).screen_cursor_view(),
    {
        if self.cursor < state.text.len() {
            let c = state.text.remove(self.cursor);
            Some(InputChange::Remove(c, self.cursor))
        } else {
            None
        }
    }

    /// Move the cursor one character left; at the start, a no-op. Never
    /// emits an event.
    pub fn move_left(&mut self, state: &InputState)
        requires
            old(self).wf(state),
        ensures
            final(self).wf(state),
            model(final(self), state) == step_state(
                model(old(self), state),
                KeyAction::Left,
                true,
            ),
    {
        if self.cursor > 0 {
            self.cursor = self.cursor - 1;
        }
    }

    /// Move the cursor one character right; at the end, a no-op. Never
    /// emits an event.
    pub fn move_right(&mut self, state: &InputState)
        requires
            old(self).wf(state),
        ensures
            final(self).wf(state),
            model(final(self), state) == step_state(
                model(old(self), state),
                KeyAction::Right,
                true,
            ),
    {
        if self.cursor < state.text.len() {
            self.cursor = self.cursor + 1;
        }
    }

    /// Jump to the start of the buffer. Unconditional and idempotent.
    pub fn move_home(&mut self, state: &InputState)
        requires
            old(self).wf(state),
        ensures
            final(self).wf(state),
            model(final(self), state) == step_state(
                model(old(self), state),
                KeyAction::Home,
                true,
            ),
    {
        self.cursor = 0;
    }

    /// Jump just past the last character. Unconditional and idempotent.
    pub fn move_end(&mut self, state: &InputState)
        requires
            old(self).wf(state),
        ensures
            final(self).wf(state),
            model(final(self), state) == step_state(model(old(self), state), KeyAction::End, true),
    {
        self.cursor = state.text.len();
    }

    /// Submit the buffer: with a non-empty buffer, hand back its pre-clear
    /// characters; when `clear_on_submit` is set, also empty the buffer and
    /// reset the cursor. With an empty buffer, a silent no-op.
    pub fn submit(&mut self, state: &mut InputState, clear_on_submit: bool) -> (r: Option<Text>)
        requires
            old(self).wf(old(state)),
        ensures
            final(self).wf(final(state)),
            model(final(self), final(state)) == step_state(
                model(old(self), old(state)),
                KeyAction::Enter,
                clear_on_submit,
            ),
            match r {
                Some(t) => submits(model(old(self), old(state)), KeyAction::Enter) && t@ == old(
                    state,
                ).text_view(),
                None => !submits(model(old(self), old(state)), KeyAction::Enter),
            },
            final(state).screen_cursor_view() == old(state).screen_cursor_view(),
    {
        if state.text.len() == 0 {
            return None;
        }
        let submitted = Text::new(clone_chars(&state.text));
        if clear_on_submit {
            self.cursor = 0;
            state.text.clear();
        }
        Some(submitted)
    }
}

/// What one key action produced: at most one change event, and the
/// submitted text when the action committed the buffer.
#[derive(Debug)]
pub struct KeyOutcome {
    /// The change event to deliver to observers, if the action mutated the
    /// buffer.
    pub change: Option<InputChange>,
    /// The committed text, if the action was a successful submit.
    pub submitted: Option<Text>,
}

impl Input {
    /// Re-clamp the viewport around the logical cursor and publish the
    /// resulting display column.
    fn update_cursor(&self, state: &mut InputState, offset: &mut usize, width: usize)
        requires
            1 <= width,
        ensures
            final(state).text_view() == old(state).text_view(),
            (*final(offset) as nat, final(state).screen_cursor_view()) == viewport::map_spec(
                *old(offset) as nat,
                self.cursor_spec(),
                width as nat,
            ),
    {
        let (new_offset, display) = viewport::map(*offset, self.cursor, width);
        *offset = new_offset;
        state.update_cursor(display);
    }

    /// Process one key action: mutate buffer and cursor as [`step_state`]
    /// says, emit the change event [`change_of`] says, hand back the
    /// submitted text on a successful enter, and re-clamp the viewport
    /// around the new cursor — except after an actual forward delete, which
    /// leaves the cursor and window where they were.
    ///
    /// `offset` is the host-owned scroll offset; `width` the viewport width
    /// in cells; `clear_on_submit` whether a submit empties the buffer.
    pub fn on_key(
        &mut self,
        action: KeyAction,
        state: &mut InputState,
        offset: &mut usize,
        width: usize,
        clear_on_submit: bool,
    ) -> (r: KeyOutcome)
        requires
            old(self).wf(old(state)),
            1 <= width,
            action is Char ==> old(state).text_view().len() < usize::MAX,
        ensures
            final(self).wf(final(state)),
            model(final(self), final(state)) == step_state(
                model(old(self), old(state)),
                action,
                clear_on_submit,
            ),
            r.change == change_of(model(old(self), old(state)), action),
            match r.submitted {
                Some(t) => submits(model(old(self), old(state)), action) && t@ == old(
                    state,
                ).text_view(),
                None => !submits(model(old(self), old(state)), action),
            },
            if action is Delete && removes(model(old(self), old(state)), action) {
                &&& *final(offset) == *old(offset)
                &&& final(state).screen_cursor_view() == old(state).screen_cursor_view()
            } else {
                (*final(offset) as nat, final(state).screen_cursor_view()) == viewport::map_spec(
                    *old(offset) as nat,
                    step_state(model(old(self), old(state)), action, clear_on_submit).cursor,
                    width as nat,
                )
            },
    {
        let mut change: Option<InputChange> = None;
        let mut submitted: Option<Text> = None;
        match action {
            KeyAction::Char(c) => {
                self.insert_char(c, state);
                change = Some(InputChange::Insert(c, self.cursor));
            },
            KeyAction::Backspace => {
                change = self.delete_before(state);
            },
            KeyAction::Enter => {
                submitted = self.submit(state, clear_on_submit);
            },
            KeyAction::Left => {
                self.move_left(state);
            },
            KeyAction::Right => {
                self.move_right(state);
            },
            KeyAction::Home => {
                self.move_home(state);
            },
            KeyAction::End => {
                self.move_end(state);
            },
            KeyAction::Delete => {
                let removed = self.delete_at(state);
                if removed.is_some() {
                    return KeyOutcome { change: removed, submitted: None };
                }
            },
        }
        self.update_cursor(state, offset, width);
        KeyOutcome { change, submitted }
    }
}

/// Copy a character buffer, element for element.
fn clone_chars(v: &Vec<char>) -> (r: Vec<char>)
    ensures
        r@ == v@,
{
    let mut r: Vec<char> = Vec::new();
    let mut i: usize = 0;
    while i < v.len()
        invariant
            i <= v.len(),
            r@ == v@.subrange(0, i as int),
        decreases v.len() - i,
    {
        r.push(v[i]);
        proof {
            assert(r@ =~= v@.subrange(0, i + 1));
        }
        i = i + 1;
    }
    proof {
        assert(r@ =~= v@);
    }
    r
}

} // verus!
