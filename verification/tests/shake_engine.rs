use viral_cursor::shake::{
    hold, jitter_halves, mark_transformed, next_seed, next_step, shutdown, skip_step, Shared, Step,
    JITTER_SEED,
};

#[test]
fn idle_engine_waits_without_reset() {
    let mut s = Shared::new();
    assert_eq!(next_step(&mut s), Step::Wait { reset: false });
}

#[test]
fn held_engine_shakes() {
    let mut s = Shared::new();
    hold(&mut s, true);
    assert!(s.held);
    assert_eq!(next_step(&mut s), Step::Shake);
    mark_transformed(&mut s);
    assert!(s.transformed);
    assert_eq!(next_step(&mut s), Step::Shake);
}

#[test]
fn release_resets_the_screen_once() {
    let mut s = Shared::new();
    hold(&mut s, true);
    next_step(&mut s);
    mark_transformed(&mut s);
    hold(&mut s, false);
    assert_eq!(next_step(&mut s), Step::Wait { reset: true });
    assert!(!s.transformed);
    assert_eq!(next_step(&mut s), Step::Wait { reset: false });
}

#[test]
fn shutdown_exits_and_resets() {
    let mut s = Shared::new();
    hold(&mut s, true);
    mark_transformed(&mut s);
    shutdown(&mut s);
    assert!(s.quit);
    assert!(!s.held);
    assert_eq!(next_step(&mut s), Step::Exit { reset: true });
    assert!(!s.transformed);
}

#[test]
fn shutdown_when_untransformed_exits_without_reset() {
    let mut s = Shared::new();
    shutdown(&mut s);
    hold(&mut s, true);
    assert_eq!(next_step(&mut s), Step::Exit { reset: false });
}

fn reference_xorshift(mut x: u32) -> u32 {
    x ^= x << 13;
    x ^= x >> 17;
    x ^= x << 5;
    x
}

#[test]
fn generator_is_xorshift32() {
    assert_eq!(next_seed(1), 270369);
    assert_eq!(next_seed(0), 0);
    let mut a = JITTER_SEED;
    for _ in 0..1000 {
        let b = next_seed(a);
        assert_eq!(b, reference_xorshift(a));
        assert_ne!(b, 0);
        a = b;
    }
}

#[test]
fn jitter_halves_split_the_value() {
    assert_eq!(jitter_halves(0x1234_ABCD), (0xABCD, 0x1234));
    assert_eq!(jitter_halves(0xFFFF_FFFF), (0xFFFF, 0xFFFF));
    assert_eq!(jitter_halves(0), (0, 0));
}

#[test]
fn skipped_step_resets_a_zoomed_screen_once() {
    let mut s = Shared::new();
    hold(&mut s, true);
    mark_transformed(&mut s);
    assert!(skip_step(&mut s));
    assert!(!s.transformed);
    assert!(s.held);
    assert!(!skip_step(&mut s));
}
