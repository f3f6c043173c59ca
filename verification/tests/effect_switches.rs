use viral_cursor::{guard_visibility_step, overlay_size, shut_down_effects, start, Effects, GuardAction};

#[test]
fn start_takes_the_cursor_and_runs() {
    let mut fx = Effects::new();
    let replace = start(&mut fx);
    assert_eq!(replace.len(), 14);
    assert!(fx.running);
    assert!(fx.cursor.hidden);
}

#[test]
fn shut_down_gives_the_cursor_back() {
    let mut fx = Effects::new();
    start(&mut fx);
    assert!(shut_down_effects(&mut fx));
    assert!(!fx.running);
    assert!(!fx.suspended);
    assert!(!fx.cursor.hidden);
    assert!(!shut_down_effects(&mut fx));
}

#[test]
fn guard_gives_back_and_takes_over() {
    let mut fx = Effects::new();
    start(&mut fx);
    match guard_visibility_step(&mut fx, true, true) {
        GuardAction::GiveBack { reload } => assert!(reload),
        other => panic!("unexpected {:?}", other),
    }
    assert!(fx.suspended);
    assert!(!fx.cursor.hidden);
    assert!(matches!(guard_visibility_step(&mut fx, true, true), GuardAction::Idle));
    match guard_visibility_step(&mut fx, false, true) {
        GuardAction::TakeOver { replace } => assert_eq!(replace.len(), 14),
        other => panic!("unexpected {:?}", other),
    }
    assert!(!fx.suspended);
    assert!(fx.cursor.hidden);
}

#[test]
fn guard_does_nothing_while_stopped() {
    let mut fx = Effects::new();
    fx.suspended = true;
    assert!(matches!(guard_visibility_step(&mut fx, true, true), GuardAction::Idle));
    assert!(!fx.suspended);
    assert!(!fx.cursor.hidden);
}

#[test]
fn guard_without_overlay_only_records() {
    let mut fx = Effects::new();
    start(&mut fx);
    assert!(matches!(guard_visibility_step(&mut fx, true, false), GuardAction::Idle));
    assert!(fx.suspended);
    assert!(fx.cursor.hidden);
}

#[test]
fn overlay_is_at_least_one_pixel() {
    assert_eq!(overlay_size(3840, 1080), (3840, 1080));
    assert_eq!(overlay_size(0, -4), (1, 1));
}
