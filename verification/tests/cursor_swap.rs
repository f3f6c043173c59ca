use viral_cursor::cursor::{
    blank_masks, hide_cursor, replaced_cursor_ids, restore, CursorState, CURSOR_SIDE,
};

fn all_ids() -> Vec<u32> {
    vec![
        32512, 32513, 32514, 32515, 32516, 32642, 32643, 32644, 32645, 32646, 32648, 32649,
        32650, 32651,
    ]
}

#[test]
fn replaced_slots_are_the_fourteen_standard_ones() {
    // OCR_NORMAL, IBEAM, WAIT, CROSS, UP, SIZENWSE, SIZENESW, SIZEWE, SIZENS,
    // SIZEALL, NO, HAND, APPSTARTING, HELP
    assert_eq!(replaced_cursor_ids(), all_ids());
}

#[test]
fn blank_masks_are_see_through() {
    let (and_mask, xor_mask) = blank_masks();
    assert_eq!(CURSOR_SIDE, 32);
    assert_eq!(and_mask.len(), 128);
    assert_eq!(xor_mask.len(), 128);
    assert!(and_mask.iter().all(|b| *b == 0xFF));
    assert!(xor_mask.iter().all(|b| *b == 0));
}

#[test]
fn first_hide_replaces_every_slot() {
    let mut state = CursorState::new();
    assert_eq!(hide_cursor(&mut state), all_ids());
    assert!(state.hidden);
}

#[test]
fn second_hide_replaces_nothing() {
    let mut state = CursorState::new();
    hide_cursor(&mut state);
    assert!(hide_cursor(&mut state).is_empty());
    assert!(state.hidden);
}

#[test]
fn restore_after_hide_reloads() {
    let mut state = CursorState::new();
    hide_cursor(&mut state);
    assert!(restore(&mut state));
    assert!(!state.hidden);
}

#[test]
fn restore_when_not_hidden_is_harmless() {
    let mut state = CursorState::new();
    assert!(!restore(&mut state));
    assert!(!restore(&mut state));
    assert!(!state.hidden);
}

#[test]
fn hide_after_restore_replaces_again() {
    let mut state = CursorState::new();
    hide_cursor(&mut state);
    restore(&mut state);
    assert_eq!(hide_cursor(&mut state).len(), 14);
}
