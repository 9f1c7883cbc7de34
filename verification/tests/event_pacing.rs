//! Event-loop pacing decisions.

use bass_calc::EventLoop;

#[test]
fn new_loop_owes_an_update() {
    let el = EventLoop::new(100);
    assert!(el.ui_needs_update);
    assert_eq!(el.last_update_ms, 100);
    assert!(!el.should_block(false));
    assert!(!el.should_block(true));
}

#[test]
fn passes_are_sixteen_milliseconds_apart() {
    let el = EventLoop::new(100);
    assert_eq!(el.wait_ms(100), 16);
    assert_eq!(el.wait_ms(105), 11);
    assert_eq!(el.wait_ms(116), 0);
    assert_eq!(el.wait_ms(130), 0);
    // A clock that moved backwards asks for no sleep.
    assert_eq!(el.wait_ms(90), 0);
}

#[test]
fn end_pass_consumes_the_owed_update() {
    let mut el = EventLoop::new(100);
    el.end_pass(130);
    assert!(!el.ui_needs_update);
    assert_eq!(el.last_update_ms, 130);
    assert!(el.should_block(false));
    assert!(!el.should_block(true));
    el.needs_update();
    assert!(el.ui_needs_update);
    assert_eq!(el.last_update_ms, 130);
    assert!(!el.should_block(false));
}
