//! Detecting a foreground window that the overlay cannot draw over.
//!
//! The overlay is always-on-top, so a window covering the whole monitor is not
//! a problem by itself: a browser at F11 is not topmost, and the hand still
//! paints over it. Only a window that is also topmost competes with the
//! overlay (the snipping overlay, a game on exclusive full screen). With the
//! real cursor hidden those would leave no pointer at all, so the plain cursor
//! comes back for as long as one of them is in front.
use vstd::prelude::*;

verus! {

/// Extended window style bit of a topmost window (`WS_EX_TOPMOST`).
pub const WS_EX_TOPMOST: isize = 0x8;

/// Extended window style bit of a window that never takes focus (`WS_EX_NOACTIVATE`).
pub const WS_EX_NOACTIVATE: isize = 0x0800_0000;

/// Extended window style bit of a tool window, kept out of alt-tab (`WS_EX_TOOLWINDOW`).
pub const WS_EX_TOOLWINDOW: isize = 0x80;

/// A screen rectangle, edges in physical pixels.
#[derive(Debug, Clone, Copy, PartialEq, Eq, Structural)]
pub struct Rect {
    pub left: i32,
    pub top: i32,
    pub right: i32,
    pub bottom: i32,
}

/// Whether `bounds` reaches every edge of `screen`.
pub open spec fn covers(bounds: Rect, screen: Rect) -> bool {
    &&& bounds.left <= screen.left
    &&& bounds.top <= screen.top
    &&& bounds.right >= screen.right
    &&& bounds.bottom >= screen.bottom
}

/// Whether a window covers its monitor, given its rectangle and its monitor's
/// rectangle; `None` stands for a query that failed, which counts as not
/// covering.
pub fn covers_its_monitor(bounds: Option<Rect>, monitor: Option<Rect>) -> (result: bool)
    ensures
        result == (bounds is Some && monitor is Some && covers(bounds->0, monitor->0)),
{
    match (bounds, monitor) {
        (Some(b), Some(m)) => {
            b.left <= m.left && b.top <= m.top && b.right >= m.right && b.bottom >= m.bottom
        },
        _ => false,
    }
}

/// Whether an extended window style marks the window topmost.
pub fn is_topmost(style: isize) -> (result: bool)
    ensures
        result == (style & WS_EX_TOPMOST != 0),
{
    style & WS_EX_TOPMOST != 0
}

/// The extended style that keeps a window out of the alt-tab list and stops it
/// from ever taking focus, keeping every bit it had.
pub fn passive_style(style: isize) -> (result: isize)
    ensures
        result == style | WS_EX_NOACTIVATE | WS_EX_TOOLWINDOW,
        result & style == style,
        result & WS_EX_NOACTIVATE == WS_EX_NOACTIVATE,
        result & WS_EX_TOOLWINDOW == WS_EX_TOOLWINDOW,
{
    let result = style | WS_EX_NOACTIVATE | WS_EX_TOOLWINDOW;
    assert(result & style == style && result & 0x0800_0000isize == 0x0800_0000isize && result
        & 0x80isize == 0x80isize) by (bit_vector)
        requires
            result == style | 0x0800_0000isize | 0x80isize,
    ;
    result
}

/// Window classes of the desktop itself, as UTF-16 code units: `Progman`,
/// `WorkerW`, `Shell_TrayWnd`. The desktop always covers the monitor; it must
/// not count as a cover-up.
pub open spec fn shell_classes() -> Seq<Seq<u16>> {
    seq![
        seq![0x50u16, 0x72, 0x6f, 0x67, 0x6d, 0x61, 0x6e],
        seq![0x57u16, 0x6f, 0x72, 0x6b, 0x65, 0x72, 0x57],
        seq![0x53u16, 0x68, 0x65, 0x6c, 0x6c, 0x5f, 0x54, 0x72, 0x61, 0x79, 0x57, 0x6e, 0x64],
    ]
}

/// The class name that a class-name query wrote: the first `length` units of
/// the buffer, none if the query reported a failure (a length below one).
pub open spec fn class_name_of(buffer: Seq<u16>, length: i32) -> Seq<u16> {
    if length <= 0 {
        Seq::empty()
    } else {
        buffer.take(length as int)
    }
}

fn units_equal(name: &[u16], length: usize, class: &[u16]) -> (equal: bool)
    requires
        length <= name.len(),
    ensures
        equal == (name@.take(length as int) =~= class@),
{
    if length != class.len() {
        return false;
    }
    let mut i: usize = 0;
    while i < length
        invariant
            length <= name.len(),
            length == class.len(),
            i <= length,
            forall|j: int| 0 <= j < i ==> name@[j] == class@[j],
        decreases length - i,
    {
        if name[i] != class[i] {
            assert(name@.take(length as int)[i as int] != class@[i as int]);
            return false;
        }
        i = i + 1;
    }
    true
}

/// Whether the class name read into `buffer` (its length as the query
/// returned it) is one of the desktop's own classes.
pub fn is_shell_class(buffer: &[u16], length: i32) -> (shell: bool)
    requires
        length <= buffer.len(),
    ensures
        shell == shell_classes().contains(class_name_of(buffer@, length)),
{
    let n: usize = if length <= 0 {
        0
    } else {
        length as usize
    };
    let progman: [u16; 7] = [0x50, 0x72, 0x6f, 0x67, 0x6d, 0x61, 0x6e];
    let worker: [u16; 7] = [0x57, 0x6f, 0x72, 0x6b, 0x65, 0x72, 0x57];
    let tray: [u16; 13] = [0x53, 0x68, 0x65, 0x6c, 0x6c, 0x5f, 0x54, 0x72, 0x61, 0x79, 0x57, 0x6e, 0x64];
    let ghost name = class_name_of(buffer@, length);
    assert(name =~= buffer@.take(n as int));
    assert(progman@ =~= shell_classes()[0]);
    assert(worker@ =~= shell_classes()[1]);
    assert(tray@ =~= shell_classes()[2]);
    let a = units_equal(buffer, n, progman.as_slice());
    let b = units_equal(buffer, n, worker.as_slice());
    let c = units_equal(buffer, n, tray.as_slice());
    proof {
        if shell_classes().contains(name) {
            let k = choose|k: int| 0 <= k < shell_classes().len() && shell_classes()[k] == name;
            assert(k == 0 || k == 1 || k == 2);
        }
        if a {
            assert(shell_classes()[0] == name);
        }
        if b {
            assert(shell_classes()[1] == name);
        }
        if c {
            assert(shell_classes()[2] == name);
        }
    }
    a || b || c
}

/// Whether the foreground window blocks the overlay: a valid window of
/// another process, not the desktop, topmost and covering its monitor.
pub open spec fn blocks_overlay(
    valid: bool,
    ours: bool,
    shell: bool,
    topmost: bool,
    covering: bool,
) -> bool {
    valid && !ours && !shell && topmost && covering
}

/// Decides whether the foreground window blocks the overlay, from what the
/// window queries found: whether there is a foreground window at all, whether
/// it belongs to this process, whether its class is the desktop's, whether it
/// is topmost and whether it covers its monitor.
pub fn foreground_blocks_overlay(
    valid: bool,
    ours: bool,
    shell: bool,
    topmost: bool,
    covering: bool,
) -> (blocks: bool)
    ensures
        blocks == blocks_overlay(valid, ours, shell, topmost, covering),
{
    if !valid || ours {
        return false;
    }
    if shell {
        return false;
    }
    topmost && covering
}

/// Only a topmost window that covers its monitor can block the overlay: a
/// window that is not topmost (a browser at F11) or does not cover its
/// monitor (an ordinary window) never does, nor does a missing window, one of
/// this process, or the desktop itself; any other window that is both topmost
/// and covering does.
pub proof fn lemma_what_blocks(valid: bool, ours: bool, shell: bool, topmost: bool, covering: bool)
    ensures
        !topmost ==> !blocks_overlay(valid, ours, shell, topmost, covering),
        !covering ==> !blocks_overlay(valid, ours, shell, topmost, covering),
        !valid ==> !blocks_overlay(valid, ours, shell, topmost, covering),
        ours ==> !blocks_overlay(valid, ours, shell, topmost, covering),
        shell ==> !blocks_overlay(valid, ours, shell, topmost, covering),
        valid && !ours && !shell && topmost && covering ==> blocks_overlay(
            valid,
            ours,
            shell,
            topmost,
            covering,
        ),
{
}

} // verus!
