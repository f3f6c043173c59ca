//! Low-level mouse and keyboard hook decisions.
//!
//! The hook callbacks themselves are installed by the program; what they see
//! arrives here as plain numbers (the hook code, the message identifier, the
//! pointer position, the virtual-key code) and leaves as an [`Event`] for the
//! consumer thread.
use vstd::prelude::*;

verus! {

/// Hook code telling a low-level hook that it must process the message.
pub const HC_ACTION: i32 = 0;

/// `WM_MOUSEMOVE`.
pub const WM_MOUSEMOVE: u32 = 0x0200;

/// `WM_LBUTTONDOWN`.
pub const WM_LBUTTONDOWN: u32 = 0x0201;

/// `WM_KEYDOWN`.
pub const WM_KEYDOWN: u32 = 0x0100;

/// `WM_KEYUP`.
pub const WM_KEYUP: u32 = 0x0101;

/// `WM_SYSKEYDOWN` (a key pressed while Alt is held).
pub const WM_SYSKEYDOWN: u32 = 0x0104;

/// `WM_SYSKEYUP`.
pub const WM_SYSKEYUP: u32 = 0x0105;

/// `WM_HOTKEY`.
pub const WM_HOTKEY: u32 = 0x0312;

/// Virtual-key code of either Ctrl key.
pub const VK_CONTROL: u16 = 0x11;

/// Virtual-key code of the left Ctrl key.
pub const VK_LCONTROL: u16 = 0xA2;

/// Virtual-key code of the right Ctrl key.
pub const VK_RCONTROL: u16 = 0xA3;

/// Hot-key modifier: Alt.
pub const MOD_ALT: u32 = 0x0001;

/// Hot-key modifier: Ctrl.
pub const MOD_CONTROL: u32 = 0x0002;

/// Hot-key modifier: do not repeat while held.
pub const MOD_NOREPEAT: u32 = 0x4000;

/// Identifier under which the panic hot key is registered.
pub const HOTKEY_ID: i32 = 0xC0DE;

/// Modifiers of the panic hot key: Ctrl + Alt, without auto-repeat.
pub const PANIC_MODIFIERS: u32 = 0x4003;

/// Virtual-key code of the panic hot key's letter, `Q`.
pub const PANIC_KEY: u32 = 0x51;

/// What the hooks report to the consumer thread.
#[derive(Debug, Clone, Copy, PartialEq, Eq, Structural)]
pub enum Event {
    /// Physical screen coordinates.
    Move(i32, i32),
    Down,
    /// Ctrl is the trigger for the machine-gun mode, so the mouse stays usable.
    CtrlDown,
    CtrlUp,
    /// Ctrl+Alt+Q: kill switch that must work even when the panel is unreachable.
    PanicStop,
}

/// The virtual key that a low-level keyboard record names: its code cut to 16 bits.
pub open spec fn virtual_key(vk_code: u32) -> int {
    vk_code as int % 0x1_0000
}

/// Whether a virtual-key code names one of the Ctrl keys.
pub open spec fn is_ctrl(vk_code: u32) -> bool {
    let key = virtual_key(vk_code);
    key == VK_LCONTROL || key == VK_RCONTROL || key == VK_CONTROL
}

/// What the mouse hook reports for one message.
pub open spec fn mouse_event_of(code: i32, message: u32, x: i32, y: i32) -> Option<Event> {
    if code != HC_ACTION {
        None
    } else if message == WM_MOUSEMOVE {
        Some(Event::Move(x, y))
    } else if message == WM_LBUTTONDOWN {
        Some(Event::Down)
    } else {
        None
    }
}

/// What the keyboard hook reports for one message.
pub open spec fn key_event_of(code: i32, message: u32, vk_code: u32) -> Option<Event> {
    if code != HC_ACTION || !is_ctrl(vk_code) {
        None
    } else if message == WM_KEYDOWN || message == WM_SYSKEYDOWN {
        Some(Event::CtrlDown)
    } else if message == WM_KEYUP || message == WM_SYSKEYUP {
        Some(Event::CtrlUp)
    } else {
        None
    }
}

/// Whether a thread message is the registered panic hot key; the message's
/// `wParam` is read as a 32-bit signed identifier.
pub open spec fn is_panic_hotkey(message: u32, wparam: u64) -> bool {
    message == WM_HOTKEY && wparam as int % 0x1_0000_0000 == HOTKEY_ID
}

/// Translates one low-level mouse hook message: a move gives its position, a
/// left-button press gives `Down`, anything else nothing.
pub fn mouse_event(code: i32, message: u32, x: i32, y: i32) -> (event: Option<Event>)
    ensures
        event == mouse_event_of(code, message, x, y),
{
    if code != HC_ACTION {
        return None;
    }
    if message == WM_MOUSEMOVE {
        Some(Event::Move(x, y))
    } else if message == WM_LBUTTONDOWN {
        Some(Event::Down)
    } else {
        None
    }
}

/// Translates one low-level keyboard hook message. Only the Ctrl keys count;
/// auto-repeat reports `CtrlDown` again and again, which the consumer removes.
pub fn key_event(code: i32, message: u32, vk_code: u32) -> (event: Option<Event>)
    ensures
        event == key_event_of(code, message, vk_code),
{
    if code != HC_ACTION {
        return None;
    }
    let key: u32 = vk_code % 0x1_0000;
    let ctrl = key == VK_LCONTROL as u32 || key == VK_RCONTROL as u32 || key == VK_CONTROL as u32;
    if !ctrl {
        return None;
    }
    if message == WM_KEYDOWN || message == WM_SYSKEYDOWN {
        Some(Event::CtrlDown)
    } else if message == WM_KEYUP || message == WM_SYSKEYUP {
        Some(Event::CtrlUp)
    } else {
        None
    }
}

/// Translates a message of the hook thread's own queue: the registered hot key
/// is the panic stop, anything else is left to the usual dispatch.
pub fn hotkey_event(message: u32, wparam: u64) -> (event: Option<Event>)
    ensures
        event == (if is_panic_hotkey(message, wparam) { Some(Event::PanicStop) } else { None }),
{
    if message == WM_HOTKEY && wparam % 0x1_0000_0000 == HOTKEY_ID as u64 {
        Some(Event::PanicStop)
    } else {
        None
    }
}

#[verifier::external_type_specification]
#[verifier::external_body]
#[verifier::reject_recursive_types(T)]
pub struct ExSender<T>(std::sync::mpsc::Sender<T>);

/// The consumer's end of the event channel, with a record of every event
/// handed to it, in order.
pub struct EventSink {
    sender: std::sync::mpsc::Sender<Event>,
    handed: Ghost<Seq<Event>>,
}

impl EventSink {
    /// The events handed to the channel so far, oldest first.
    pub closed spec fn handed(&self) -> Seq<Event> {
        self.handed@
    }

    /// The channel that the events go to.
    pub closed spec fn channel(&self) -> std::sync::mpsc::Sender<Event> {
        self.sender
    }

    /// A sink over `sender` that has been handed nothing yet.
    pub fn new(sender: std::sync::mpsc::Sender<Event>) -> (sink: EventSink)
        ensures
            sink.handed() == Seq::<Event>::empty(),
            sink.channel() == sender,
    {
        EventSink { sender, handed: Ghost(Seq::empty()) }
    }

    /// Calls `std::sync::mpsc::Sender::send` once with `event`, which the
    /// record notes. As the documentation of `send` says, it never blocks, it
    /// fails only when the receiving end is gone, and then the value comes
    /// back in the error: the result is that value, or `None` when the
    /// channel took the event. Whether the receiver is still there is not
    /// visible here, so which of the two happens is left open.
    #[verifier::external_body]
    fn send(&mut self, event: Event) -> (undelivered: Option<Event>)
        ensures
            final(self).handed() == old(self).handed().push(event),
            final(self).channel() == old(self).channel(),
            undelivered matches Some(back) ==> back == event,
    {
        match self.sender.send(event) {
            Ok(()) => None,
            Err(std::sync::mpsc::SendError(back)) => Some(back),
        }
    }
}

/// Registers the consumer of the hook events. Safe to call once; later calls
/// are ignored: the first consumer stays, and the result says whether this
/// call installed one.
pub fn install_sink(slot: &mut Option<EventSink>, sender: std::sync::mpsc::Sender<Event>) -> (installed: bool)
    ensures
        *old(slot) is Some ==> !installed && *final(slot) == *old(slot),
        *old(slot) is None ==> {
            &&& installed
            &&& *final(slot) is Some
            &&& (*final(slot))->0.channel() == sender
            &&& (*final(slot))->0.handed() == Seq::<Event>::empty()
        },
{
    if slot.is_some() {
        return false;
    }
    *slot = Some(EventSink::new(sender));
    true
}

/// Hands an event to the consumer, if a consumer was registered: the event
/// goes to its channel exactly once and the channel stays the same. Returns
/// the event back when it was not taken: always when there is no consumer
/// (nothing is sent then), and when the consumer's end of the channel is gone;
/// `None` when the channel took it.
pub fn emit(sink: &mut Option<EventSink>, event: Event) -> (undelivered: Option<Event>)
    ensures
        *old(sink) is None ==> *final(sink) is None && undelivered == Some(event),
        *old(sink) is Some ==> {
            &&& *final(sink) is Some
            &&& (*final(sink))->0.handed() == (*old(sink))->0.handed().push(event)
            &&& (*final(sink))->0.channel() == (*old(sink))->0.channel()
        },
        undelivered matches Some(back) ==> back == event,
{
    match sink {
        Some(consumer) => consumer.send(event),
        None => Some(event),
    }
}

/// The mouse deliberately does nothing but poke: its hook reports only
/// positions and left clicks, and the keyboard hook reports only Ctrl going
/// down or up; neither can produce the panic stop, which only the registered
/// hot key gives.
pub proof fn lemma_hooks_report_their_own_events(code: i32, message: u32, x: i32, y: i32, vk_code: u32)
    ensures
        mouse_event_of(code, message, x, y) matches Some(e) ==> (e == Event::Move(x, y) || e
            == Event::Down),
        key_event_of(code, message, vk_code) matches Some(e) ==> (e == Event::CtrlDown || e
            == Event::CtrlUp),
{
}

/// Only a pointer move and a left-button press reach the consumer: a move
/// carries exactly the position it was reported at, a press is only ever the
/// left button, and nothing is reported for a hook code other than an action
/// or for any other mouse message (right or middle button, button release,
/// wheel).
pub proof fn lemma_mouse_messages(code: i32, message: u32, x: i32, y: i32)
    ensures
        code != 0 ==> mouse_event_of(code, message, x, y) is None,
        mouse_event_of(code, message, x, y) == Some(Event::Down) ==> message == 0x0201,
        mouse_event_of(code, message, x, y) matches Some(Event::Move(a, b)) ==> message == 0x0200
            && a == x && b == y,
        message != 0x0200 && message != 0x0201 ==> mouse_event_of(code, message, x, y) is None,
        code == 0 && message == 0x0200 ==> mouse_event_of(code, message, x, y) == Some(
            Event::Move(x, y),
        ),
        code == 0 && message == 0x0201 ==> mouse_event_of(code, message, x, y) == Some(Event::Down),
{
}

/// Only the Ctrl keys count: a key event is reported only for the
/// virtual keys 0x11 (Ctrl), 0xA2 (left Ctrl) and 0xA3 (right Ctrl), read from
/// the low 16 bits of the code, so Alt, AltGr, Shift or any letter never start
/// the machine gun. A press (plain or with Alt) gives `CtrlDown`, a release
/// gives `CtrlUp`, and every other message or hook code gives nothing.
pub proof fn lemma_only_ctrl_keys(code: i32, message: u32, vk_code: u32)
    ensures
        key_event_of(code, message, vk_code) is Some ==> {
            let key = vk_code as int % 0x1_0000;
            key == 0x11 || key == 0xA2 || key == 0xA3
        },
        key_event_of(code, message, vk_code) is Some ==> code == 0,
        key_event_of(code, message, vk_code) == Some(Event::CtrlDown) ==> message == 0x0100
            || message == 0x0104,
        key_event_of(code, message, vk_code) == Some(Event::CtrlUp) ==> message == 0x0101
            || message == 0x0105,
        key_event_of(code, message, vk_code) is Some ==> key_event_of(code, message, vk_code)
            == Some(Event::CtrlDown) || key_event_of(code, message, vk_code) == Some(Event::CtrlUp),
        ({
            let key = vk_code as int % 0x1_0000;
            code == 0 && (key == 0x11 || key == 0xA2 || key == 0xA3) && (message == 0x0100
                || message == 0x0104)
        }) ==> key_event_of(code, message, vk_code) == Some(Event::CtrlDown),
        ({
            let key = vk_code as int % 0x1_0000;
            code == 0 && (key == 0x11 || key == 0xA2 || key == 0xA3) && (message == 0x0101
                || message == 0x0105)
        }) ==> key_event_of(code, message, vk_code) == Some(Event::CtrlUp),
{
}

} // verus!
