use std::sync::mpsc;

use viral_cursor::hook::{
    emit, hotkey_event, install_sink, EventSink, key_event, mouse_event, Event, HC_ACTION, HOTKEY_ID, MOD_ALT,
    MOD_CONTROL, MOD_NOREPEAT, PANIC_KEY, PANIC_MODIFIERS, VK_CONTROL, VK_LCONTROL, VK_RCONTROL,
    WM_HOTKEY, WM_KEYDOWN, WM_KEYUP, WM_LBUTTONDOWN, WM_MOUSEMOVE, WM_SYSKEYDOWN, WM_SYSKEYUP,
};

#[test]
fn message_numbers_are_the_win32_ones() {
    assert_eq!(HC_ACTION, 0);
    assert_eq!(WM_MOUSEMOVE, 512);
    assert_eq!(WM_LBUTTONDOWN, 513);
    assert_eq!(WM_KEYDOWN, 256);
    assert_eq!(WM_KEYUP, 257);
    assert_eq!(WM_SYSKEYDOWN, 260);
    assert_eq!(WM_SYSKEYUP, 261);
    assert_eq!(WM_HOTKEY, 786);
}

#[test]
fn key_numbers_are_the_win32_ones() {
    assert_eq!(VK_CONTROL, 17);
    assert_eq!(VK_LCONTROL, 162);
    assert_eq!(VK_RCONTROL, 163);
    assert_eq!(MOD_ALT, 1);
    assert_eq!(MOD_CONTROL, 2);
    assert_eq!(MOD_NOREPEAT, 16384);
    assert_eq!(PANIC_MODIFIERS, MOD_CONTROL | MOD_ALT | MOD_NOREPEAT);
    assert_eq!(PANIC_KEY, b'Q' as u32);
    assert_eq!(HOTKEY_ID, 0xC0DE);
}

#[test]
fn mouse_move_reports_position() {
    assert_eq!(mouse_event(0, 0x0200, -5, 1200), Some(Event::Move(-5, 1200)));
}

#[test]
fn mouse_left_press_reports_down() {
    assert_eq!(mouse_event(0, 0x0201, 3, 4), Some(Event::Down));
}

#[test]
fn mouse_other_messages_are_ignored() {
    // right button down, left button up, wheel
    assert_eq!(mouse_event(0, 0x0204, 3, 4), None);
    assert_eq!(mouse_event(0, 0x0202, 3, 4), None);
    assert_eq!(mouse_event(0, 0x020A, 3, 4), None);
}

#[test]
fn mouse_not_an_action_is_ignored() {
    assert_eq!(mouse_event(3, 0x0200, 1, 1), None);
    assert_eq!(mouse_event(-1, 0x0201, 1, 1), None);
}

#[test]
fn every_ctrl_key_goes_down_and_up() {
    for vk in [0x11u32, 0xA2, 0xA3] {
        assert_eq!(key_event(0, 0x0100, vk), Some(Event::CtrlDown));
        assert_eq!(key_event(0, 0x0104, vk), Some(Event::CtrlDown));
        assert_eq!(key_event(0, 0x0101, vk), Some(Event::CtrlUp));
        assert_eq!(key_event(0, 0x0105, vk), Some(Event::CtrlUp));
    }
}

#[test]
fn other_keys_are_ignored() {
    assert_eq!(key_event(0, 0x0100, 0x51), None); // Q
    assert_eq!(key_event(0, 0x0100, 0x12), None); // Alt
    assert_eq!(key_event(0, 0x0100, 0xA0), None); // left Shift
}

#[test]
fn key_code_is_read_as_sixteen_bits() {
    assert_eq!(key_event(0, 0x0100, 0x1_0011), Some(Event::CtrlDown));
    assert_eq!(key_event(0, 0x0101, 0xABCD_00A2), Some(Event::CtrlUp));
}

#[test]
fn key_not_an_action_or_other_message_is_ignored() {
    assert_eq!(key_event(1, 0x0100, 0x11), None);
    assert_eq!(key_event(0, 0x0102, 0x11), None); // WM_CHAR
}

#[test]
fn panic_hotkey_is_recognised() {
    assert_eq!(hotkey_event(0x0312, 0xC0DE), Some(Event::PanicStop));
    assert_eq!(hotkey_event(0x0312, 0x1_0000_C0DE), Some(Event::PanicStop));
}

#[test]
fn other_hotkeys_and_messages_are_not_panic() {
    assert_eq!(hotkey_event(0x0312, 0xC0DF), None);
    assert_eq!(hotkey_event(0x0100, 0xC0DE), None);
}

#[test]
fn emit_without_sink_sends_nothing() {
    let mut sink: Option<EventSink> = None;
    assert_eq!(emit(&mut sink, Event::Down), Some(Event::Down));
    assert!(sink.is_none());
}

#[test]
fn emit_hands_event_to_consumer() {
    let (sender, receiver) = mpsc::channel();
    let mut sink = Some(EventSink::new(sender));
    assert_eq!(emit(&mut sink, Event::Move(7, 8)), None);
    assert_eq!(emit(&mut sink, Event::Down), None);
    assert_eq!(receiver.recv().unwrap(), Event::Move(7, 8));
    assert_eq!(receiver.recv().unwrap(), Event::Down);
    assert!(receiver.try_recv().is_err());
}

#[test]
fn emit_to_gone_consumer_reports_failure() {
    let (sender, receiver) = mpsc::channel::<Event>();
    drop(receiver);
    let mut sink = Some(EventSink::new(sender));
    assert_eq!(emit(&mut sink, Event::CtrlUp), Some(Event::CtrlUp));
    assert!(sink.is_some());
}

#[test]
fn sink_is_installed_once() {
    let (first, first_rx) = mpsc::channel();
    let (second, second_rx) = mpsc::channel();
    let mut slot: Option<EventSink> = None;
    assert!(install_sink(&mut slot, first));
    assert!(!install_sink(&mut slot, second));
    assert_eq!(emit(&mut slot, Event::Down), None);
    assert_eq!(first_rx.recv().unwrap(), Event::Down);
    assert!(second_rx.try_recv().is_err());
}
