use text_input::editor::{Input, InputState, KeyAction};
use text_input::events::InputChange;

fn type_str(input: &mut Input, state: &mut InputState, offset: &mut usize, width: usize, s: &str) {
    for c in s.chars() {
        let out = input.on_key(KeyAction::Char(c), state, offset, width, true);
        assert!(out.change.is_some());
        assert!(out.submitted.is_none());
    }
}

#[test]
fn scenario_insert_three_chars() {
    // empty buffer, width 5, offset 0; insert 'a','b','c'
    let mut input = Input::new();
    let mut state = InputState::new();
    let mut offset: usize = 0;
    type_str(&mut input, &mut state, &mut offset, 5, "abc");
    assert_eq!(state.text(), &vec!['a', 'b', 'c']);
    assert_eq!(input.cursor(), 3);
    assert_eq!(state.screen_cursor(), 3);
    assert_eq!(offset, 0);
}

#[test]
fn scenario_insert_scrolls_window() {
    // buffer "abc", cursor 3, width 3, offset 0; insert 'd'
    let mut input = Input::new();
    let mut state = InputState::new();
    let mut offset: usize = 0;
    type_str(&mut input, &mut state, &mut offset, 3, "abc");
    let out = input.on_key(KeyAction::Char('d'), &mut state, &mut offset, 3, true);
    assert_eq!(input.cursor(), 4);
    assert_eq!(offset, 2);
    assert_eq!(state.screen_cursor(), 2);
    assert_eq!(out.change, Some(InputChange::Insert('d', 4)));
}

#[test]
fn scenario_submit_clears_and_returns_text() {
    // buffer "hello", cursor 5; submit with clear_on_submit = true
    let mut input = Input::new();
    let mut state = InputState::new();
    let mut offset: usize = 0;
    type_str(&mut input, &mut state, &mut offset, 10, "hello");
    let out = input.on_key(KeyAction::Enter, &mut state, &mut offset, 10, true);
    let submitted = out.submitted.expect("submit must return the text");
    assert_eq!(submitted.chars(), &vec!['h', 'e', 'l', 'l', 'o']);
    assert_eq!(submitted.char_count(), 5);
    assert_eq!(state.text(), &Vec::new());
    assert_eq!(input.cursor(), 0);
    assert!(out.change.is_none());
}

#[test]
fn scenario_empty_buffer_noops() {
    // empty buffer: every action but insert leaves state alone, no event
    let actions = [
        KeyAction::Backspace,
        KeyAction::Enter,
        KeyAction::Left,
        KeyAction::Right,
        KeyAction::Home,
        KeyAction::End,
        KeyAction::Delete,
    ];
    for action in actions {
        let mut input = Input::new();
        let mut state = InputState::new();
        let mut offset: usize = 0;
        let out = input.on_key(action, &mut state, &mut offset, 4, true);
        assert!(out.change.is_none());
        assert!(out.submitted.is_none());
        assert_eq!(state.char_count(), 0);
        assert_eq!(input.cursor(), 0);
        assert_eq!(offset, 0);
        assert_eq!(state.screen_cursor(), 0);
    }
}

#[test]
fn scenario_forward_delete_multibyte() {
    // cursor 2 in a 4-character buffer with a multi-byte last character:
    // forward delete removes the character at logical index 2
    let mut input = Input::new();
    let mut state = InputState::new();
    let mut offset: usize = 0;
    type_str(&mut input, &mut state, &mut offset, 8, "caf\u{e9}");
    assert_eq!(state.char_count(), 4);
    input.on_key(KeyAction::Left, &mut state, &mut offset, 8, true);
    input.on_key(KeyAction::Left, &mut state, &mut offset, 8, true);
    assert_eq!(input.cursor(), 2);
    let out = input.on_key(KeyAction::Delete, &mut state, &mut offset, 8, true);
    assert_eq!(state.text(), &vec!['c', 'a', '\u{e9}']);
    assert_eq!(input.cursor(), 2);
    assert_eq!(out.change, Some(InputChange::Remove('f', 2)));
}

#[test]
fn insert_in_middle_splices() {
    let mut input = Input::new();
    let mut state = InputState::new();
    let mut offset: usize = 0;
    type_str(&mut input, &mut state, &mut offset, 10, "ad");
    input.on_key(KeyAction::Left, &mut state, &mut offset, 10, true);
    let out = input.on_key(KeyAction::Char('c'), &mut state, &mut offset, 10, true);
    assert_eq!(state.text(), &vec!['a', 'c', 'd']);
    assert_eq!(out.change, Some(InputChange::Insert('c', 2)));
    let mut input2 = Input::new();
    input2.move_end(&state);
    assert_eq!(input2.cursor(), 3);
}

#[test]
fn backspace_removes_before_cursor() {
    let mut input = Input::new();
    let mut state = InputState::new();
    let mut offset: usize = 0;
    type_str(&mut input, &mut state, &mut offset, 10, "abc");
    input.on_key(KeyAction::Left, &mut state, &mut offset, 10, true);
    let out = input.on_key(KeyAction::Backspace, &mut state, &mut offset, 10, true);
    assert_eq!(state.text(), &vec!['a', 'c']);
    assert_eq!(input.cursor(), 1);
    assert_eq!(out.change, Some(InputChange::Remove('b', 1)));
}

#[test]
fn backspace_at_start_is_noop() {
    let mut input = Input::new();
    let mut state = InputState::new();
    let mut offset: usize = 0;
    type_str(&mut input, &mut state, &mut offset, 10, "ab");
    input.on_key(KeyAction::Home, &mut state, &mut offset, 10, true);
    let out = input.on_key(KeyAction::Backspace, &mut state, &mut offset, 10, true);
    assert!(out.change.is_none());
    assert_eq!(state.text(), &vec!['a', 'b']);
    assert_eq!(input.cursor(), 0);
}

#[test]
fn forward_delete_at_end_is_noop() {
    let mut input = Input::new();
    let mut state = InputState::new();
    let mut offset: usize = 0;
    type_str(&mut input, &mut state, &mut offset, 10, "ab");
    assert_eq!(input.cursor(), 2);
    let out = input.on_key(KeyAction::Delete, &mut state, &mut offset, 10, true);
    assert!(out.change.is_none());
    assert_eq!(state.text(), &vec!['a', 'b']);
    assert_eq!(input.cursor(), 2);
}

#[test]
fn forward_delete_keeps_window() {
    // an actual forward delete leaves offset and display column untouched
    let mut input = Input::new();
    let mut state = InputState::new();
    let mut offset: usize = 0;
    type_str(&mut input, &mut state, &mut offset, 3, "abcde");
    assert_eq!(offset, 3);
    assert_eq!(state.screen_cursor(), 2);
    input.on_key(KeyAction::Home, &mut state, &mut offset, 3, true);
    assert_eq!(offset, 0);
    assert_eq!(state.screen_cursor(), 0);
    let out = input.on_key(KeyAction::Delete, &mut state, &mut offset, 3, true);
    assert_eq!(out.change, Some(InputChange::Remove('a', 0)));
    assert_eq!(offset, 0);
    assert_eq!(state.screen_cursor(), 0);
    assert_eq!(state.text(), &vec!['b', 'c', 'd', 'e']);
}

#[test]
fn move_left_then_right_restores_cursor() {
    let mut input = Input::new();
    let mut state = InputState::new();
    let mut offset: usize = 0;
    type_str(&mut input, &mut state, &mut offset, 10, "abcd");
    input.on_key(KeyAction::Left, &mut state, &mut offset, 10, true);
    input.on_key(KeyAction::Left, &mut state, &mut offset, 10, true);
    assert_eq!(input.cursor(), 2);
    input.on_key(KeyAction::Left, &mut state, &mut offset, 10, true);
    input.on_key(KeyAction::Right, &mut state, &mut offset, 10, true);
    assert_eq!(input.cursor(), 2);
}

#[test]
fn insert_then_backspace_restores_buffer() {
    let mut input = Input::new();
    let mut state = InputState::new();
    let mut offset: usize = 0;
    type_str(&mut input, &mut state, &mut offset, 10, "abcd");
    input.on_key(KeyAction::Left, &mut state, &mut offset, 10, true);
    input.on_key(KeyAction::Left, &mut state, &mut offset, 10, true);
    assert_eq!(input.cursor(), 2);
    input.on_key(KeyAction::Char('x'), &mut state, &mut offset, 10, true);
    assert_eq!(state.text(), &vec!['a', 'b', 'x', 'c', 'd']);
    input.on_key(KeyAction::Backspace, &mut state, &mut offset, 10, true);
    assert_eq!(state.text(), &vec!['a', 'b', 'c', 'd']);
    assert_eq!(input.cursor(), 2);
}

#[test]
fn char_count_tracks_performed_edits() {
    // 6 inserts, 2 performed removals, plus no-op removals and navigation
    let mut input = Input::new();
    let mut state = InputState::new();
    let mut offset: usize = 0;
    type_str(&mut input, &mut state, &mut offset, 10, "abc");
    input.on_key(KeyAction::Home, &mut state, &mut offset, 10, true);
    input.on_key(KeyAction::Backspace, &mut state, &mut offset, 10, true); // no-op
    type_str(&mut input, &mut state, &mut offset, 10, "xyz");
    input.on_key(KeyAction::Backspace, &mut state, &mut offset, 10, true); // removes
    input.on_key(KeyAction::End, &mut state, &mut offset, 10, true);
    input.on_key(KeyAction::Delete, &mut state, &mut offset, 10, true); // no-op
    input.on_key(KeyAction::Home, &mut state, &mut offset, 10, true);
    input.on_key(KeyAction::Delete, &mut state, &mut offset, 10, true); // removes
    assert_eq!(state.char_count(), 6 - 2);
}

#[test]
fn submit_without_clear_keeps_buffer() {
    let mut input = Input::new();
    let mut state = InputState::new();
    let mut offset: usize = 0;
    type_str(&mut input, &mut state, &mut offset, 10, "hi");
    let out = input.on_key(KeyAction::Enter, &mut state, &mut offset, 10, false);
    let submitted = out.submitted.expect("submit must return the text");
    assert_eq!(submitted.chars(), &vec!['h', 'i']);
    assert_eq!(state.text(), &vec!['h', 'i']);
    assert_eq!(input.cursor(), 2);
}

#[test]
fn home_and_end_jump() {
    let mut input = Input::new();
    let mut state = InputState::new();
    let mut offset: usize = 0;
    type_str(&mut input, &mut state, &mut offset, 10, "abcde");
    input.on_key(KeyAction::Home, &mut state, &mut offset, 10, true);
    assert_eq!(input.cursor(), 0);
    input.on_key(KeyAction::Home, &mut state, &mut offset, 10, true);
    assert_eq!(input.cursor(), 0);
    input.on_key(KeyAction::End, &mut state, &mut offset, 10, true);
    assert_eq!(input.cursor(), 5);
    input.on_key(KeyAction::End, &mut state, &mut offset, 10, true);
    assert_eq!(input.cursor(), 5);
}

#[test]
fn right_at_end_is_noop() {
    let mut input = Input::new();
    let mut state = InputState::new();
    let mut offset: usize = 0;
    type_str(&mut input, &mut state, &mut offset, 10, "ab");
    let out = input.on_key(KeyAction::Right, &mut state, &mut offset, 10, true);
    assert!(out.change.is_none());
    assert_eq!(input.cursor(), 2);
}

#[test]
fn direct_operations_match_on_key() {
    let mut input = Input::new();
    let mut state = InputState::new();
    input.insert_char('a', &mut state);
    input.insert_char('b', &mut state);
    assert_eq!(input.cursor(), 2);
    input.move_left(&state);
    let removed = input.delete_before(&mut state);
    assert_eq!(removed, Some(InputChange::Remove('a', 0)));
    assert_eq!(state.text(), &vec!['b']);
    let removed_at = input.delete_at(&mut state);
    assert_eq!(removed_at, Some(InputChange::Remove('b', 0)));
    assert_eq!(state.char_count(), 0);
    let nothing = input.submit(&mut state, true);
    assert!(nothing.is_none());
}
