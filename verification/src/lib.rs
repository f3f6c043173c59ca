//! Verified decisions of a desktop pointer effect: hook translation, pointer
//! pumping, cursor swapping, full-screen detection and the screen-shake engine.
//!
//! The effect as a whole is switched by [`start`] and [`shut_down_effects`],
//! and a guard ([`guard_visibility_step`]) gives the plain cursor back while a
//! topmost full-screen window sits above the overlay.
use vstd::prelude::*;
use crate::cursor::{hide_cursor, replaced_ids, restore, CursorState};
use crate::hook::{is_panic_hotkey, Event, HOTKEY_ID, WM_HOTKEY};
use crate::pump::{pump_step_of, Incoming, PumpState, Signal};

pub mod cursor;
pub mod fullscreen;
pub mod hook;
pub mod pump;
pub mod shake;

verus! {

/// The effect's switches, shared by the panel commands, the guard and the
/// event consumer.
#[derive(Debug, Clone, Copy, PartialEq, Eq, Structural)]
pub struct Effects {
    /// The effect is on: the overlay is shown and receives events.
    pub running: bool,
    /// A full-screen window forced the plain cursor back.
    pub suspended: bool,
    /// The system cursor replacement.
    pub cursor: CursorState,
}

/// What the guard has to do to the overlay and the cursor.
#[derive(Debug)]
pub enum GuardAction {
    /// Nothing changes.
    Idle,
    /// Hide the overlay and give the plain cursor back, reloading the user's
    /// cursor scheme if `reload`.
    GiveBack { reload: bool },
    /// Show the overlay and put a blank cursor into each slot of `replace`.
    TakeOver { replace: Vec<u32> },
}

/// What the guard does, in the abstract.
#[derive(Debug, Clone, Copy, PartialEq, Eq, Structural)]
pub enum Turn {
    Stay,
    GiveBack,
    TakeOver,
}

/// The switches after the effect was started.
pub open spec fn started(fx: Effects) -> Effects {
    Effects { running: true, cursor: CursorState { hidden: true }, ..fx }
}

/// The switches after the effect was shut down.
pub open spec fn shut_down(fx: Effects) -> Effects {
    Effects { running: false, suspended: false, cursor: CursorState { hidden: false } }
}

/// One check of the guard, given whether a blocking window is in front
/// (`covered`) and whether the overlay window still exists.
pub open spec fn guard_of(fx: Effects, covered: bool, overlay_present: bool) -> (Effects, Turn) {
    if !fx.running {
        (Effects { suspended: false, ..fx }, Turn::Stay)
    } else if covered == fx.suspended {
        (fx, Turn::Stay)
    } else if !overlay_present {
        (Effects { suspended: covered, ..fx }, Turn::Stay)
    } else if covered {
        (Effects { suspended: true, cursor: CursorState { hidden: false }, ..fx }, Turn::GiveBack)
    } else {
        (Effects { suspended: false, cursor: CursorState { hidden: true }, ..fx }, Turn::TakeOver)
    }
}

/// The effect shows exactly one pointer: while it is off nothing is suspended,
/// and while it runs the real cursor is hidden exactly when it is not given
/// back for a full-screen window.
pub open spec fn one_pointer(fx: Effects) -> bool {
    &&& !fx.running ==> !fx.suspended
    &&& fx.running ==> (fx.cursor.hidden <==> !fx.suspended)
}

impl Effects {
    /// Everything off, cursor untouched.
    pub fn new() -> (fx: Effects)
        ensures
            !fx.running,
            !fx.suspended,
            !fx.cursor.hidden,
            one_pointer(fx),
    {
        Effects { running: false, suspended: false, cursor: CursorState::new() }
    }
}

/// Starts the effect once its overlay covers the screens and is shown: the
/// cursor is taken over and events start flowing. Returns the cursor slots
/// that must now get a blank cursor.
pub fn start(fx: &mut Effects) -> (replace: Vec<u32>)
    ensures
        *final(fx) == started(*old(fx)),
        replace@ == (if old(fx).cursor.hidden { Seq::<u32>::empty() } else { replaced_ids() }),
{
    let replace = hide_cursor(&mut fx.cursor);
    fx.running = true;
    replace
}

/// Turns everything off and gives the cursor back; every path that ends the
/// app goes through here. Returns whether the user's cursor scheme must be
/// reloaded, which is exactly when the cursor was hidden.
pub fn shut_down_effects(fx: &mut Effects) -> (reload: bool)
    ensures
        *final(fx) == shut_down(*old(fx)),
        reload == old(fx).cursor.hidden,
{
    fx.running = false;
    fx.suspended = false;
    restore(&mut fx.cursor)
}

/// One check of the full-screen guard. `covered` is whether a blocking
/// window is in front (only looked at while the effect runs); `overlay_present`
/// whether the overlay window still exists. The plain cursor comes back when a
/// blocking window appears and goes again when it leaves; nothing is done
/// while the state already matches.
pub fn guard_visibility_step(fx: &mut Effects, covered: bool, overlay_present: bool) -> (action:
    GuardAction)
    ensures
        *final(fx) == guard_of(*old(fx), covered, overlay_present).0,
        match action {
            GuardAction::Idle => guard_of(*old(fx), covered, overlay_present).1 == Turn::Stay,
            GuardAction::GiveBack { reload } => {
                &&& guard_of(*old(fx), covered, overlay_present).1 == Turn::GiveBack
                &&& reload == old(fx).cursor.hidden
            },
            GuardAction::TakeOver { replace } => {
                &&& guard_of(*old(fx), covered, overlay_present).1 == Turn::TakeOver
                &&& replace@ == (if old(fx).cursor.hidden {
                    Seq::<u32>::empty()
                } else {
                    replaced_ids()
                })
            },
        },
{
    if !fx.running {
        fx.suspended = false;
        return GuardAction::Idle;
    }
    if covered == fx.suspended {
        return GuardAction::Idle;
    }
    fx.suspended = covered;
    if !overlay_present {
        return GuardAction::Idle;
    }
    if covered {
        let reload = restore(&mut fx.cursor);
        GuardAction::GiveBack { reload }
    } else {
        let replace = hide_cursor(&mut fx.cursor);
        GuardAction::TakeOver { replace }
    }
}

/// The overlay's size for a virtual screen of `width` by `height`, at least
/// one pixel each way.
pub fn overlay_size(width: i32, height: i32) -> (size: (u32, u32))
    ensures
        size.0 == (if width < 1 { 1 } else { width as int }),
        size.1 == (if height < 1 { 1 } else { height as int }),
{
    let w: u32 = if width < 1 {
        1
    } else {
        width as u32
    };
    let h: u32 = if height < 1 {
        1
    } else {
        height as u32
    };
    (w, h)
}

/// Starting a stopped effect, shutting down and every guard check (with the
/// overlay in place) keep the effect at exactly one pointer.
pub proof fn lemma_one_pointer_kept(fx: Effects, covered: bool)
    requires
        one_pointer(fx),
    ensures
        !fx.running ==> one_pointer(started(fx)),
        one_pointer(shut_down(fx)),
        one_pointer(guard_of(fx, covered, true).0),
{
}

/// The guard acts once per change: checking again with the same answer does
/// nothing, and while the effect runs the suspension follows the answer.
pub proof fn lemma_guard_settles(fx: Effects, covered: bool)
    ensures
        guard_of(guard_of(fx, covered, true).0, covered, true).1 == Turn::Stay,
        guard_of(guard_of(fx, covered, true).0, covered, true).0 == guard_of(fx, covered, true).0,
        fx.running ==> guard_of(fx, covered, true).0.suspended == covered,
        !fx.running ==> !guard_of(fx, covered, true).0.suspended && guard_of(fx, covered, true).1
            == Turn::Stay,
{
}

/// Whatever happened in between, shutting down after a start gives the
/// cursor back: the reload is owed and the effect ends off with the cursor
/// restored.
pub proof fn lemma_start_then_shut_down_restores(fx: Effects)
    ensures
        started(fx).cursor.hidden,
        !shut_down(started(fx)).running,
        !shut_down(started(fx)).cursor.hidden,
{
}

/// Ctrl+Alt+Q stops everything and gives the normal cursor back: the hot key
/// message is the panic stop, a running effect answers it with `Stopped`, and
/// shutting down then leaves the effect off with the cursor restored.
pub proof fn lemma_panic_hotkey_gives_cursor_back(s: PumpState, fx: Effects, move_due: bool)
    requires
        fx.running,
    ensures
        is_panic_hotkey(WM_HOTKEY, HOTKEY_ID as u64),
        pump_step_of(s, Incoming::Event(Event::PanicStop), fx.running, move_due).1.signal == Some(
            Signal::Stopped,
        ),
        !shut_down(fx).running,
        !shut_down(fx).cursor.hidden,
{
}

} // verus!
