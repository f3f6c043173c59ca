//! Hiding the real cursor system-wide so the drawn hand is the only pointer.
//!
//! Replacing the system cursors is global and outlives the process, so every
//! path that can end the app has to give them back. The state here decides
//! when the replacement and the reload actually have to happen; the program
//! performs them.
use vstd::prelude::*;

verus! {

/// Side of the blank cursor, in pixels.
pub const CURSOR_SIDE: usize = 32;

/// Whether the system cursors are currently replaced by blank ones.
#[derive(Debug, Clone, Copy, PartialEq, Eq, Structural)]
pub struct CursorState {
    pub hidden: bool,
}

/// The system cursor slots that get a blank cursor, as `OCR_*` identifiers:
/// normal, I-beam, wait, cross, up-arrow, the four sizing arrows, move,
/// unavailable, hand, working in background, help.
pub open spec fn replaced_ids() -> Seq<u32> {
    seq![
        32512u32, 32513u32, 32514u32, 32515u32, 32516u32, 32642u32, 32643u32,
        32644u32, 32645u32, 32646u32, 32648u32, 32649u32, 32650u32, 32651u32,
    ]
}

/// The slots to replace, in order.
pub fn replaced_cursor_ids() -> (ids: Vec<u32>)
    ensures
        ids@ == replaced_ids(),
{
    let ids = vec![
        32512u32, 32513u32, 32514u32, 32515u32, 32516u32, 32642u32, 32643u32,
        32644u32, 32645u32, 32646u32, 32648u32, 32649u32, 32650u32, 32651u32,
    ];
    assert(ids@ =~= replaced_ids());
    ids
}

impl CursorState {
    /// At startup nothing is known to be replaced.
    pub fn new() -> (state: CursorState)
        ensures
            !state.hidden,
    {
        CursorState { hidden: false }
    }
}

/// The two masks of a fully see-through cursor: the AND mask all ones, the XOR
/// mask all zeros, one bit per pixel of a `CURSOR_SIDE` square.
pub fn blank_masks() -> (masks: (Vec<u8>, Vec<u8>))
    ensures
        masks.0.len() == CURSOR_SIDE * CURSOR_SIDE / 8,
        masks.1.len() == CURSOR_SIDE * CURSOR_SIDE / 8,
        forall|i: int| 0 <= i < masks.0.len() ==> masks.0@[i] == 0xFFu8,
        forall|i: int| 0 <= i < masks.1.len() ==> masks.1@[i] == 0u8,
{
    let bytes: usize = CURSOR_SIDE * CURSOR_SIDE / 8;
    let mut and_mask: Vec<u8> = Vec::new();
    let mut xor_mask: Vec<u8> = Vec::new();
    let mut i: usize = 0;
    while i < bytes
        invariant
            bytes == CURSOR_SIDE * CURSOR_SIDE / 8,
            i <= bytes,
            and_mask.len() == i,
            xor_mask.len() == i,
            forall|j: int| 0 <= j < i ==> and_mask@[j] == 0xFFu8,
            forall|j: int| 0 <= j < i ==> xor_mask@[j] == 0u8,
        decreases bytes - i,
    {
        and_mask.push(0xFFu8);
        xor_mask.push(0u8);
        i = i + 1;
    }
    (and_mask, xor_mask)
}

/// The state after taking over the cursor, and the slots that get a blank
/// cursor: all of them the first time, none if the cursor is hidden already.
pub open spec fn hide_of(state: CursorState) -> (CursorState, Seq<u32>) {
    (CursorState { hidden: true }, if state.hidden { Seq::empty() } else { replaced_ids() })
}

/// The state after giving the cursor back, and whether the user's cursor
/// scheme must be reloaded: exactly when it was hidden.
pub open spec fn restore_of(state: CursorState) -> (CursorState, bool) {
    (CursorState { hidden: false }, state.hidden)
}

/// Takes over the cursor. Returns the slots that must now get a blank cursor:
/// all of them the first time, none if the cursor is hidden already.
pub fn hide_cursor(state: &mut CursorState) -> (replace: Vec<u32>)
    ensures
        (*final(state), replace@) == hide_of(*old(state)),
{
    let was_hidden = state.hidden;
    state.hidden = true;
    if was_hidden {
        return Vec::new();
    }
    replaced_cursor_ids()
}

/// Gives the cursor back. Returns whether the user's cursor scheme must be
/// reloaded, which is the case exactly when the cursor was hidden; calling it
/// when nothing is hidden is harmless.
pub fn restore(state: &mut CursorState) -> (reload: bool)
    ensures
        (*final(state), reload) == restore_of(*old(state)),
{
    let was_hidden = state.hidden;
    state.hidden = false;
    was_hidden
}

/// Hiding is idempotent: a second take-over replaces nothing.
pub proof fn lemma_hide_twice(state: CursorState)
    ensures
        hide_of(hide_of(state).0).1 == Seq::<u32>::empty(),
        hide_of(hide_of(state).0).0 == hide_of(state).0,
{
}

/// Restoring is safe to repeat: a second give-back reloads nothing.
pub proof fn lemma_restore_twice(state: CursorState)
    ensures
        !restore_of(restore_of(state).0).1,
        restore_of(restore_of(state).0).0 == restore_of(state).0,
{
}

/// Giving back after a take-over always reloads the user's cursors, and a
/// take-over after a give-back always replaces every slot.
pub proof fn lemma_hide_restore_round_trip(state: CursorState)
    ensures
        restore_of(hide_of(state).0).1,
        !restore_of(hide_of(state).0).0.hidden,
        hide_of(restore_of(state).0).1 == replaced_ids(),
{
}

} // verus!
