//! The consumer of hook events: what the overlay and the panel are told.
//!
//! Events arrive from the hooks far faster than the overlay needs them.
//! Pointer moves are coalesced: only the latest position is kept and it is
//! sent at most once per interval. Ctrl's auto-repeat is removed, so the
//! overlay sees one `CtrlDown` per press. Nothing reaches the overlay while
//! the effect is not running, and the panic hot key stops a running effect.
use vstd::prelude::*;
use crate::hook::Event;

verus! {

/// What the consumer receives in one round.
#[derive(Debug, Clone, Copy, PartialEq, Eq, Structural)]
pub enum Incoming {
    /// An event from the hooks.
    Event(Event),
    /// Nothing arrived within the move interval.
    Timeout,
    /// The hooks are gone; the consumer ends.
    Disconnected,
}

/// A notification the consumer sends on.
#[derive(Debug, Clone, Copy, PartialEq, Eq, Structural)]
pub enum Signal {
    /// A click: the overlay pokes.
    Down,
    /// Ctrl went down: the overlay starts the machine gun.
    CtrlDown,
    /// Ctrl went up: the overlay stops the machine gun.
    CtrlUp,
    /// The panic hot key: the effect is stopped and the panel is told.
    Stopped,
}

/// A pointer position in physical screen coordinates.
#[derive(Debug, Clone, Copy, PartialEq, Eq, Structural)]
pub struct Position {
    pub x: i32,
    pub y: i32,
}

/// What the consumer keeps between rounds.
#[derive(Debug, Clone, Copy, PartialEq, Eq, Structural)]
pub struct PumpState {
    /// The latest pointer position not yet sent.
    pub pending: Option<Position>,
    /// Whether a `CtrlDown` was sent and no `CtrlUp` arrived since.
    pub ctrl_held: bool,
}

/// What the consumer does in one round.
#[derive(Debug, Clone, Copy, PartialEq, Eq, Structural)]
pub struct PumpAction {
    /// The notification for the event of this round, if any. `Stopped` also
    /// means that the effect must be shut down now.
    pub signal: Option<Signal>,
    /// A pointer position (physical screen coordinates) to send to the overlay.
    pub moved: Option<Position>,
    /// The pending position was taken: the move interval starts anew.
    pub flushed: bool,
    /// The consumer ends.
    pub exit: bool,
}

/// The effect of one event on the consumer's state, and its notification,
/// while the effect is `running` or not.
pub open spec fn on_event_of(s: PumpState, event: Event, running: bool) -> (PumpState, Option<Signal>) {
    match event {
        Event::Move(x, y) => (PumpState { pending: Some(Position { x, y }), ..s }, None),
        Event::Down => (s, if running { Some(Signal::Down) } else { None }),
        Event::CtrlDown => if running && !s.ctrl_held {
            (PumpState { ctrl_held: true, ..s }, Some(Signal::CtrlDown))
        } else {
            (s, None)
        },
        Event::CtrlUp => (
            PumpState { ctrl_held: false, ..s },
            if running { Some(Signal::CtrlUp) } else { None },
        ),
        Event::PanicStop => (s, if running { Some(Signal::Stopped) } else { None }),
    }
}

/// One round of the consumer: handle what arrived, then, if a position is
/// pending and the move interval has passed (`move_due`), take it and send it
/// when the effect is still running (a panic stop in this round ends it).
pub open spec fn pump_step_of(s: PumpState, incoming: Incoming, running: bool, move_due: bool) -> (
    PumpState,
    PumpAction,
) {
    match incoming {
        Incoming::Disconnected => (
            s,
            PumpAction { signal: None, moved: None, flushed: false, exit: true },
        ),
        _ => {
            let handled = match incoming {
                Incoming::Event(e) => on_event_of(s, e, running),
                _ => (s, None),
            };
            let s1 = handled.0;
            let signal = handled.1;
            let still_running = running && signal != Some(Signal::Stopped);
            if s1.pending is Some && move_due {
                (
                    PumpState { pending: None, ..s1 },
                    PumpAction {
                        signal,
                        moved: if still_running { s1.pending } else { None },
                        flushed: true,
                        exit: false,
                    },
                )
            } else {
                (s1, PumpAction { signal, moved: None, flushed: false, exit: false })
            }
        },
    }
}

impl PumpState {
    /// Nothing pending, Ctrl not held.
    pub fn new() -> (s: PumpState)
        ensures
            s.pending is None,
            !s.ctrl_held,
    {
        PumpState { pending: None, ctrl_held: false }
    }
}

fn on_event(state: &mut PumpState, event: Event, running: bool) -> (signal: Option<Signal>)
    ensures
        (*final(state), signal) == on_event_of(*old(state), event, running),
{
    match event {
        Event::Move(x, y) => {
            state.pending = Some(Position { x, y });
            None
        },
        Event::Down => {
            if running {
                Some(Signal::Down)
            } else {
                None
            }
        },
        Event::CtrlDown => {
            if running && !state.ctrl_held {
                state.ctrl_held = true;
                Some(Signal::CtrlDown)
            } else {
                None
            }
        },
        Event::CtrlUp => {
            state.ctrl_held = false;
            if running {
                Some(Signal::CtrlUp)
            } else {
                None
            }
        },
        Event::PanicStop => {
            if running {
                Some(Signal::Stopped)
            } else {
                None
            }
        },
    }
}

/// Runs one round of the consumer. `running` is whether the effect runs as
/// the round starts; `move_due` whether the move interval has passed since
/// the last position was taken.
pub fn pump_step(state: &mut PumpState, incoming: Incoming, running: bool, move_due: bool) -> (action:
    PumpAction)
    ensures
        (*final(state), action) == pump_step_of(*old(state), incoming, running, move_due),
{
    let signal = match incoming {
        Incoming::Disconnected => {
            return PumpAction { signal: None, moved: None, flushed: false, exit: true };
        },
        Incoming::Event(event) => on_event(state, event, running),
        Incoming::Timeout => None,
    };
    let stopped = match signal {
        Some(Signal::Stopped) => true,
        _ => false,
    };
    let still_running = running && !stopped;
    match state.pending {
        Some(position) => {
            if move_due {
                state.pending = None;
                PumpAction {
                    signal,
                    moved: if still_running {
                        Some(position)
                    } else {
                        None
                    },
                    flushed: true,
                    exit: false,
                }
            } else {
                PumpAction { signal, moved: None, flushed: false, exit: false }
            }
        },
        None => PumpAction { signal, moved: None, flushed: false, exit: false },
    }
}

/// A pointer position relative to the overlay's top-left corner, still in
/// physical pixels; the program divides by the overlay's scale factor.
pub fn overlay_offset(x: i32, y: i32, origin_x: i32, origin_y: i32) -> (offset: (i32, i32))
    requires
        i32::MIN <= x - origin_x <= i32::MAX,
        i32::MIN <= y - origin_y <= i32::MAX,
    ensures
        offset.0 == x - origin_x,
        offset.1 == y - origin_y,
{
    (x - origin_x, y - origin_y)
}

/// Pointer updates are coalesced to this interval, in microseconds; the hook
/// itself can fire far faster.
pub const MOVE_INTERVAL_US: u64 = 6_000;

/// One round as the consumer sees it: what arrived, whether the effect runs,
/// and the time in microseconds on a clock that never goes back.
#[derive(Debug, Clone, Copy, PartialEq, Eq, Structural)]
pub struct Round {
    pub incoming: Incoming,
    pub running: bool,
    pub now: u64,
}

/// Whether the move interval has passed at `now`, given when a position was
/// last taken (`None`: never, so a position is due at once).
pub open spec fn move_due_at(last_taken: Option<u64>, now: u64) -> bool {
    match last_taken {
        None => true,
        Some(last) => now >= last + MOVE_INTERVAL_US,
    }
}

/// One timed round: the interval decides whether a pending position may go
/// out, and taking one restarts the interval at `now`.
pub open spec fn timed_round_of(s: PumpState, last_taken: Option<u64>, round: Round) -> (
    PumpState,
    Option<u64>,
    PumpAction,
) {
    let stepped = pump_step_of(s, round.incoming, round.running, move_due_at(last_taken, round.now));
    (stepped.0, if stepped.1.flushed { Some(round.now) } else { last_taken }, stepped.1)
}

/// The actions of a run of timed rounds, in order.
pub open spec fn run_of(s: PumpState, last_taken: Option<u64>, rounds: Seq<Round>) -> Seq<PumpAction>
    decreases rounds.len(),
{
    if rounds.len() == 0 {
        Seq::empty()
    } else {
        let first = timed_round_of(s, last_taken, rounds[0]);
        seq![first.2] + run_of(first.0, first.1, rounds.drop_first())
    }
}

/// Whether the rounds' times never go back.
pub open spec fn times_ordered(rounds: Seq<Round>) -> bool {
    forall|k: int, l: int| 0 <= k <= l < rounds.len() ==> rounds[k].now <= rounds[l].now
}

/// Whether the move interval has passed at `now`, given when a position was
/// last taken (`None`: never). A clock reading before the last take counts as
/// no time passed.
pub fn move_due(last_taken: Option<u64>, now: u64) -> (due: bool)
    ensures
        due == move_due_at(last_taken, now),
{
    match last_taken {
        None => true,
        Some(last) => now >= last && now - last >= MOVE_INTERVAL_US,
    }
}

/// Runs one round at time `now` (microseconds): the move interval, restarted
/// whenever a position is taken, decides whether a pending position goes out.
pub fn pump_round(state: &mut PumpState, last_taken: &mut Option<u64>, round: Round) -> (action:
    PumpAction)
    ensures
        (*final(state), *final(last_taken), action) == timed_round_of(*old(state), *old(last_taken), round),
{
    let due = move_due(*last_taken, round.now);
    let action = pump_step(state, round.incoming, round.running, due);
    if action.flushed {
        *last_taken = Some(round.now);
    }
    action
}

proof fn lemma_run_len(s: PumpState, last_taken: Option<u64>, rounds: Seq<Round>)
    ensures
        run_of(s, last_taken, rounds).len() == rounds.len(),
    decreases rounds.len(),
{
    if rounds.len() > 0 {
        let first = timed_round_of(s, last_taken, rounds[0]);
        lemma_run_len(first.0, first.1, rounds.drop_first());
    }
}

/// Once a position was taken at `last`, no round whose clock reads no
/// earlier than `last` sends another before the interval has passed.
proof fn lemma_take_waits(s: PumpState, last: u64, rounds: Seq<Round>, j: int)
    requires
        times_ordered(rounds),
        forall|k: int| 0 <= k < rounds.len() ==> rounds[k].now >= last,
        0 <= j < rounds.len(),
        run_of(s, Some(last), rounds)[j].moved is Some,
    ensures
        rounds[j].now >= last + MOVE_INTERVAL_US,
    decreases j,
{
    let first = timed_round_of(s, Some(last), rounds[0]);
    lemma_run_len(first.0, first.1, rounds.drop_first());
    if j > 0 {
        let rest = rounds.drop_first();
        assert(run_of(s, Some(last), rounds)[j] == run_of(first.0, first.1, rest)[j - 1]);
        let next_last: u64 = match first.1 {
            Some(t) => t,
            None => last,
        };
        assert(first.1 == Some(next_last));
        assert(next_last >= last);
        assert forall|k: int| 0 <= k < rest.len() implies rest[k].now >= next_last by {
            assert(rest[k] == rounds[k + 1]);
            assert(rounds[0].now <= rounds[k + 1].now);
        }
        assert forall|k: int, l: int| 0 <= k <= l < rest.len() implies rest[k].now <= rest[l].now by {
            assert(rest[k] == rounds[k + 1]);
            assert(rest[l] == rounds[l + 1]);
        }
        lemma_take_waits(first.0, next_last, rest, j - 1);
    }
}

/// Successive pointer positions reach the overlay at least one move interval
/// apart: over any run of rounds whose clock never goes back, two rounds that
/// both send a position are `MOVE_INTERVAL_US` or more apart.
pub proof fn lemma_moves_spaced(
    s: PumpState,
    last_taken: Option<u64>,
    rounds: Seq<Round>,
    i: int,
    j: int,
)
    requires
        times_ordered(rounds),
        0 <= i < j < rounds.len(),
        run_of(s, last_taken, rounds)[i].moved is Some,
        run_of(s, last_taken, rounds)[j].moved is Some,
    ensures
        rounds[j].now >= rounds[i].now + MOVE_INTERVAL_US,
    decreases i,
{
    let first = timed_round_of(s, last_taken, rounds[0]);
    let rest = rounds.drop_first();
    lemma_run_len(first.0, first.1, rest);
    assert(run_of(s, last_taken, rounds)[j] == run_of(first.0, first.1, rest)[j - 1]);
    assert forall|k: int, l: int| 0 <= k <= l < rest.len() implies rest[k].now <= rest[l].now by {
        assert(rest[k] == rounds[k + 1]);
        assert(rest[l] == rounds[l + 1]);
    }
    if i == 0 {
        assert(run_of(s, last_taken, rounds)[0] == first.2);
        assert(first.1 == Some(rounds[0].now));
        assert forall|k: int| 0 <= k < rest.len() implies rest[k].now >= rounds[0].now by {
            assert(rest[k] == rounds[k + 1]);
        }
        lemma_take_waits(first.0, rounds[0].now, rest, j - 1);
    } else {
        assert(run_of(s, last_taken, rounds)[i] == run_of(first.0, first.1, rest)[i - 1]);
        lemma_moves_spaced(first.0, first.1, rest, i - 1, j - 1);
    }
}

/// The latest pointer position among the rounds, oldest first; `before` if
/// none of them brought a move.
pub open spec fn latest_move(before: Option<Position>, rounds: Seq<Round>) -> Option<Position>
    decreases rounds.len(),
{
    if rounds.len() == 0 {
        before
    } else {
        let next = match rounds[0].incoming {
            Incoming::Event(Event::Move(x, y)) => Some(Position { x, y }),
            _ => before,
        };
        latest_move(next, rounds.drop_first())
    }
}

proof fn lemma_latest_move_ignores_before(a: Option<Position>, rounds: Seq<Round>)
    requires
        latest_move(None, rounds) is Some,
    ensures
        latest_move(a, rounds) == latest_move(None, rounds),
    decreases rounds.len(),
{
    if rounds.len() > 0 {
        match rounds[0].incoming {
            Incoming::Event(Event::Move(x, y)) => {},
            _ => {
                lemma_latest_move_ignores_before(a, rounds.drop_first());
            },
        }
    }
}

/// Moves are coalesced to the latest: a position that reaches the overlay is
/// the latest one that arrived up to that round (or, if none arrived, the one
/// pending at the start), so a position overtaken by a later one before it
/// was sent is never sent, and sent positions follow their arrival order.
pub proof fn lemma_sent_move_is_latest(
    s: PumpState,
    last_taken: Option<u64>,
    rounds: Seq<Round>,
    j: int,
)
    requires
        0 <= j < rounds.len(),
        run_of(s, last_taken, rounds)[j].moved is Some,
    ensures
        run_of(s, last_taken, rounds)[j].moved == latest_move(s.pending, rounds.take(j + 1)),
    decreases j,
{
    let first = timed_round_of(s, last_taken, rounds[0]);
    let rest = rounds.drop_first();
    lemma_run_len(first.0, first.1, rest);
    let m0 = match rounds[0].incoming {
        Incoming::Event(Event::Move(x, y)) => Some(Position { x, y }),
        _ => s.pending,
    };
    assert(rounds.take(j + 1).drop_first() =~= rest.take(j));
    assert(rounds.take(j + 1)[0] == rounds[0]);
    assert(latest_move(s.pending, rounds.take(j + 1)) == latest_move(m0, rest.take(j)));
    if j == 0 {
        assert(run_of(s, last_taken, rounds)[0] == first.2);
        assert(rest.take(0) =~= Seq::<Round>::empty());
    } else {
        assert(run_of(s, last_taken, rounds)[j] == run_of(first.0, first.1, rest)[j - 1]);
        lemma_sent_move_is_latest(first.0, first.1, rest, j - 1);
        if first.2.flushed {
            assert(first.0.pending is None);
            lemma_latest_move_ignores_before(m0, rest.take(j));
        } else {
            assert(first.0.pending == m0);
        }
    }
}

/// While the effect is not running nothing reaches the overlay or the panel:
/// no notification and no pointer position.
pub proof fn lemma_silent_while_stopped(s: PumpState, incoming: Incoming, move_due: bool)
    ensures
        pump_step_of(s, incoming, false, move_due).1.signal is None,
        pump_step_of(s, incoming, false, move_due).1.moved is None,
{
}

/// Ctrl's auto-repeat is removed: a round that sends `CtrlDown` leaves Ctrl
/// held, and while Ctrl is held no round sends `CtrlDown` again until a
/// `CtrlUp` arrives.
pub proof fn lemma_ctrl_down_once(
    s: PumpState,
    incoming: Incoming,
    running: bool,
    move_due: bool,
)
    ensures
        pump_step_of(s, incoming, running, move_due).1.signal == Some(Signal::CtrlDown)
            ==> pump_step_of(s, incoming, running, move_due).0.ctrl_held,
        s.ctrl_held && incoming != Incoming::Event(Event::CtrlUp) ==> {
            &&& pump_step_of(s, incoming, running, move_due).0.ctrl_held
            &&& pump_step_of(s, incoming, running, move_due).1.signal != Some(Signal::CtrlDown)
        },
{
}

/// Moves are coalesced: of two positions that arrive within one interval only
/// the later one is sent, and only if the effect runs.
pub proof fn lemma_latest_move_wins(
    s: PumpState,
    x1: i32,
    y1: i32,
    x2: i32,
    y2: i32,
    running: bool,
)
    ensures
        ({
            let first = pump_step_of(s, Incoming::Event(Event::Move(x1, y1)), running, false);
            let second = pump_step_of(first.0, Incoming::Event(Event::Move(x2, y2)), running, true);
            &&& first.1.moved is None
            &&& second.1.moved == (if running { Some(Position { x: x2, y: y2 }) } else { None })
            &&& second.0.pending is None
        }),
{
}

/// A position is sent at most once: a round that takes it leaves nothing
/// pending, and a round with nothing pending that receives no move sends none.
pub proof fn lemma_move_sent_once(s: PumpState, incoming: Incoming, running: bool, move_due: bool)
    ensures
        pump_step_of(s, incoming, running, move_due).1.flushed ==> pump_step_of(
            s,
            incoming,
            running,
            move_due,
        ).0.pending is None,
        s.pending is None && !(incoming matches Incoming::Event(Event::Move(_, _))) ==> pump_step_of(
            s,
            incoming,
            running,
            move_due,
        ).1.moved is None,
        pump_step_of(s, incoming, running, move_due).1.moved is Some ==> pump_step_of(
            s,
            incoming,
            running,
            move_due,
        ).1.flushed,
{
}

/// The panic hot key stops a running effect: the round says `Stopped` and
/// sends no pointer position after it.
pub proof fn lemma_panic_stops(s: PumpState, move_due: bool)
    ensures
        pump_step_of(s, Incoming::Event(Event::PanicStop), true, move_due).1.signal == Some(
            Signal::Stopped,
        ),
        pump_step_of(s, Incoming::Event(Event::PanicStop), true, move_due).1.moved is None,
{
}

/// Clicks and Ctrl changes are forwarded whatever the pointer is doing: while
/// the effect runs, a click always gives `Down` and a Ctrl release always
/// gives `CtrlUp`, with or without a position pending and whether or not a
/// move is due; a Ctrl press gives `CtrlDown` whenever Ctrl was not already
/// held.
pub proof fn lemma_clicks_always_forwarded(s: PumpState, move_due: bool)
    ensures
        pump_step_of(s, Incoming::Event(Event::Down), true, move_due).1.signal == Some(Signal::Down),
        pump_step_of(s, Incoming::Event(Event::CtrlUp), true, move_due).1.signal == Some(
            Signal::CtrlUp,
        ),
        !s.ctrl_held ==> pump_step_of(s, Incoming::Event(Event::CtrlDown), true, move_due).1.signal
            == Some(Signal::CtrlDown),
        !pump_step_of(s, Incoming::Event(Event::CtrlUp), true, move_due).0.ctrl_held,
{
}

/// A move stays due once the interval has passed, however long ago the last
/// position went out, and is never due before: `now` at least
/// `MOVE_INTERVAL_US` after the last take is due, anything earlier is not,
/// and with no take yet a move is due at once. So a pending position goes out
/// in the first round that comes at least one interval after the last one.
pub proof fn lemma_due_after_interval(last: u64, now: u64)
    ensures
        now >= last + MOVE_INTERVAL_US <==> move_due_at(Some(last), now),
        move_due_at(None, now),
        forall|later: u64| #![trigger move_due_at(Some(last), later)]
            move_due_at(Some(last), now) && later >= now ==> move_due_at(Some(last), later),
{
}

/// A pending position is not held back: in a running round at least one
/// interval after the last take, it is sent (the one that was pending, if no
/// newer move arrives in that round) and the interval restarts at that round.
pub proof fn lemma_pending_goes_out(s: PumpState, last: u64, round: Round)
    requires
        s.pending is Some,
        round.running,
        round.incoming == Incoming::Timeout,
        round.now >= last + MOVE_INTERVAL_US,
    ensures
        timed_round_of(s, Some(last), round).2.moved == s.pending,
        timed_round_of(s, Some(last), round).1 == Some(round.now),
        timed_round_of(s, Some(last), round).0.pending is None,
{
}

} // verus!
