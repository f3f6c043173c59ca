use viral_cursor::fullscreen::{
    covers_its_monitor, foreground_blocks_overlay, is_shell_class, is_topmost, passive_style,
    Rect, WS_EX_NOACTIVATE, WS_EX_TOOLWINDOW, WS_EX_TOPMOST,
};

fn rect(left: i32, top: i32, right: i32, bottom: i32) -> Rect {
    Rect { left, top, right, bottom }
}

fn units(name: &str) -> Vec<u16> {
    let mut buffer = vec![0u16; 64];
    for (i, u) in name.encode_utf16().enumerate() {
        buffer[i] = u;
    }
    buffer
}

#[test]
fn style_bits_are_the_win32_ones() {
    assert_eq!(WS_EX_TOPMOST, 0x8);
    assert_eq!(WS_EX_NOACTIVATE, 0x0800_0000);
    assert_eq!(WS_EX_TOOLWINDOW, 0x80);
}

#[test]
fn exact_monitor_rect_covers() {
    let screen = rect(0, 0, 1920, 1080);
    assert!(covers_its_monitor(Some(screen), Some(screen)));
}

#[test]
fn larger_window_covers() {
    assert!(covers_its_monitor(Some(rect(-8, -8, 1928, 1088)), Some(rect(0, 0, 1920, 1080))));
}

#[test]
fn smaller_window_does_not_cover() {
    let screen = rect(0, 0, 1920, 1080);
    assert!(!covers_its_monitor(Some(rect(0, 0, 1920, 1040)), Some(screen)));
    assert!(!covers_its_monitor(Some(rect(1, 0, 1920, 1080)), Some(screen)));
    assert!(!covers_its_monitor(Some(rect(0, 1, 1920, 1080)), Some(screen)));
    assert!(!covers_its_monitor(Some(rect(0, 0, 1919, 1080)), Some(screen)));
}

#[test]
fn second_monitor_window_covers_its_own_monitor() {
    assert!(covers_its_monitor(Some(rect(1920, 0, 3840, 1080)), Some(rect(1920, 0, 3840, 1080))));
}

#[test]
fn failed_queries_do_not_cover() {
    assert!(!covers_its_monitor(None, Some(rect(0, 0, 10, 10))));
    assert!(!covers_its_monitor(Some(rect(0, 0, 10, 10)), None));
    assert!(!covers_its_monitor(None, None));
}

#[test]
fn topmost_bit_is_read() {
    assert!(is_topmost(0x8));
    assert!(is_topmost(0x0800_0088));
    assert!(is_topmost(-1));
    assert!(!is_topmost(0));
    assert!(!is_topmost(0x0800_0080));
}

#[test]
fn passive_style_adds_both_bits_and_keeps_the_rest() {
    assert_eq!(passive_style(0), 0x0800_0080);
    assert_eq!(passive_style(0x8), 0x0800_0088);
    assert_eq!(passive_style(passive_style(0x100)), passive_style(0x100));
}

#[test]
fn desktop_classes_are_shell() {
    for name in ["Progman", "WorkerW", "Shell_TrayWnd"] {
        let buffer = units(name);
        assert!(is_shell_class(&buffer, name.len() as i32), "{}", name);
    }
}

#[test]
fn other_classes_are_not_shell() {
    for name in ["Chrome_WidgetWin_1", "Progma", "Progmanx", "progman", "Shell_TrayWnd2"] {
        let buffer = units(name);
        assert!(!is_shell_class(&buffer, name.len() as i32), "{}", name);
    }
}

#[test]
fn class_name_length_limits_the_compare() {
    let buffer = units("Progman_extra");
    assert!(is_shell_class(&buffer, 7));
    assert!(!is_shell_class(&buffer, 13));
}

#[test]
fn failed_class_query_is_not_shell() {
    let buffer = units("Progman");
    assert!(!is_shell_class(&buffer, 0));
    assert!(!is_shell_class(&buffer, -1));
}

#[test]
fn only_foreign_topmost_covering_windows_block() {
    assert!(foreground_blocks_overlay(true, false, false, true, true));
    assert!(!foreground_blocks_overlay(false, false, false, true, true));
    assert!(!foreground_blocks_overlay(true, true, false, true, true));
    assert!(!foreground_blocks_overlay(true, false, true, true, true));
    assert!(!foreground_blocks_overlay(true, false, false, false, true));
    assert!(!foreground_blocks_overlay(true, false, false, true, false));
}
