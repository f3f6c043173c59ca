//! The screen-shake engine's state and its worker's decisions.
//!
//! The desktop shakes through the full-screen magnification transform, driven
//! by one worker thread. The state it shares with the rest of the program says
//! whether Ctrl holds the shake on, whether the program asked the worker to
//! quit, and whether the screen is currently transformed. The worker decides
//! from it whether to drop the screen back to 1:1 and wait, to drop it and
//! exit, or to shake one more step; the per-step offsets come from a
//! xorshift generator.
use vstd::prelude::*;

verus! {

/// Starting value of the jitter generator.
pub const JITTER_SEED: u32 = 0x9E37_79B9;

/// State shared between the program and the shake worker.
#[derive(Debug, Clone, Copy, PartialEq, Eq, Structural)]
pub struct Shared {
    /// Ctrl is held: the machine gun, and with it the shake, is on.
    pub held: bool,
    /// The program is ending: the worker must exit.
    pub quit: bool,
    /// The screen is currently zoomed and offset.
    pub transformed: bool,
}

/// What the worker does next.
#[derive(Debug, Clone, Copy, PartialEq, Eq, Structural)]
pub enum Step {
    /// Reset the transform first if `reset`, then sleep until woken.
    Wait { reset: bool },
    /// Reset the transform first if `reset`, then end the worker.
    Exit { reset: bool },
    /// Apply one more shake step.
    Shake,
}

/// The worker's decision and the state it leaves, from the state it finds.
pub open spec fn next_step_of(s: Shared) -> (Step, Shared) {
    if s.quit {
        (Step::Exit { reset: s.transformed }, Shared { transformed: false, ..s })
    } else if !s.held {
        (Step::Wait { reset: s.transformed }, Shared { transformed: false, ..s })
    } else {
        (Step::Shake, s)
    }
}

/// The state after the program asked the engine to end.
pub open spec fn shut_down_of(s: Shared) -> Shared {
    Shared { quit: true, held: false, ..s }
}

/// One step of the xorshift generator that drives the jitter.
pub open spec fn xorshift32(x: u32) -> u32 {
    let a = x ^ (x << 13u32);
    let b = a ^ (a >> 17u32);
    b ^ (b << 5u32)
}

impl Shared {
    /// A fresh engine: not held, not quitting, screen at 1:1.
    pub fn new() -> (s: Shared)
        ensures
            !s.held,
            !s.quit,
            !s.transformed,
    {
        Shared { held: false, quit: false, transformed: false }
    }
}

/// Turns the shake on while Ctrl is held and off when it is released.
pub fn hold(shared: &mut Shared, on: bool)
    ensures
        *final(shared) == (Shared { held: on, ..*old(shared) }),
{
    shared.held = on;
}

/// Asks the worker to drop the screen back to 1:1 and stop; called when the
/// program exits.
pub fn shutdown(shared: &mut Shared)
    ensures
        *final(shared) == shut_down_of(*old(shared)),
{
    shared.quit = true;
    shared.held = false;
}

/// The worker's decision on waking: exit when asked to quit, wait while the
/// shake is not held, shake otherwise. Before waiting or exiting the screen is
/// marked untransformed, and a reset is asked for exactly when it was
/// transformed.
pub fn next_step(shared: &mut Shared) -> (step: Step)
    ensures
        (step, *final(shared)) == next_step_of(*old(shared)),
{
    if shared.quit {
        let reset = shared.transformed;
        shared.transformed = false;
        return Step::Exit { reset };
    }
    if !shared.held {
        let reset = shared.transformed;
        shared.transformed = false;
        return Step::Wait { reset };
    }
    Step::Shake
}

/// The state after a shake step was skipped for an amplitude too small to
/// show, and whether the screen must be reset: exactly when it was
/// transformed.
pub open spec fn skip_of(s: Shared) -> (Shared, bool) {
    (Shared { transformed: false, ..s }, s.transformed)
}

/// Skips a shake step whose amplitude is below half a pixel. An amplitude of 0
/// disables the shake entirely, so a screen still zoomed from earlier steps
/// goes back to 1:1: the result says whether a reset is needed.
pub fn skip_step(shared: &mut Shared) -> (reset: bool)
    ensures
        (*final(shared), reset) == skip_of(*old(shared)),
{
    let reset = shared.transformed;
    shared.transformed = false;
    reset
}

/// Records that a shake step was applied to the screen.
pub fn mark_transformed(shared: &mut Shared)
    ensures
        *final(shared) == (Shared { transformed: true, ..*old(shared) }),
{
    shared.transformed = true;
}

/// Advances the jitter generator by one step.
pub fn next_seed(seed: u32) -> (next: u32)
    ensures
        next == xorshift32(seed),
{
    let mut s = seed;
    s = s ^ (s << 13u32);
    s = s ^ (s >> 17u32);
    s = s ^ (s << 5u32);
    s
}

/// The two 16-bit halves of a generator value, low half for the horizontal
/// jitter and high half for the vertical one; each is later scaled from
/// `0..=65535` to `-1..=1` times the amplitude.
pub fn jitter_halves(seed: u32) -> (halves: (u32, u32))
    ensures
        halves.0 == seed % 0x1_0000,
        halves.1 == seed / 0x1_0000,
        halves.0 <= 0xFFFF,
        halves.1 <= 0xFFFF,
{
    let low = seed & 0xFFFF;
    let high = seed >> 16u32;
    assert(low == seed % 0x1_0000 && high == seed / 0x1_0000) by (bit_vector)
        requires
            low == seed & 0xFFFF,
            high == seed >> 16u32,
    ;
    (low, high)
}

/// Once the program asks the engine to end, the worker's next decision is to
/// exit, whether or not Ctrl was held, and it leaves the screen at 1:1,
/// resetting it exactly when it was transformed.
pub proof fn lemma_shutdown_then_exit(s: Shared)
    ensures
        next_step_of(shut_down_of(s)).0 == (Step::Exit { reset: s.transformed }),
        !next_step_of(shut_down_of(s)).1.transformed,
{
}

/// Whenever the worker goes to sleep or ends, the screen is left at 1:1; it
/// shakes only while held and not quitting, and that decision changes nothing.
pub proof fn lemma_idle_is_untransformed(s: Shared)
    ensures
        !(next_step_of(s).0 is Shake) ==> !next_step_of(s).1.transformed,
        next_step_of(s).0 is Shake <==> (s.held && !s.quit),
        next_step_of(s).0 is Shake ==> next_step_of(s).1 == s,
{
}

/// Releasing Ctrl sends the worker to sleep at its next decision, with the
/// screen reset if it had been shaking.
pub proof fn lemma_release_stops_shake(s: Shared)
    requires
        !s.quit,
    ensures
        next_step_of(Shared { held: false, ..s }).0 == (Step::Wait { reset: s.transformed }),
        !next_step_of(Shared { held: false, ..s }).1.transformed,
{
}

/// The generator keeps a non-zero value non-zero, so the jitter never gets
/// stuck at the fixed point 0; starting from `JITTER_SEED` it never reaches it.
pub proof fn lemma_xorshift_nonzero(x: u32)
    requires
        x != 0,
    ensures
        xorshift32(x) != 0,
{
    assert(x != 0 ==> (x ^ (x << 13u32)) ^ ((x ^ (x << 13u32)) >> 17u32) ^ (((x ^ (x
        << 13u32)) ^ ((x ^ (x << 13u32)) >> 17u32)) << 5u32) != 0) by (bit_vector);
}

/// With the amplitude at 0 the shake is off entirely: a skipped step leaves
/// the screen at 1:1 whatever earlier steps did, resets it exactly when it
/// was zoomed, and leaves Ctrl's hold and the quit request as they were.
pub proof fn lemma_still_at_zero_amplitude(s: Shared)
    ensures
        !skip_of(s).0.transformed,
        skip_of(s).1 == s.transformed,
        skip_of(s).0.held == s.held,
        skip_of(s).0.quit == s.quit,
        !skip_of(skip_of(s).0).1,
{
}

} // verus!
