use blinky::board::Board;
use blinky::control::{ButtonAction, Controller, PERIOD_MS};
use blinky::level::Level;

fn assert_idle(b: &Board) {
    assert!(!b.control.running);
    assert!(!b.timer_running);
    assert_eq!(b.led, Level::Low);
}

fn assert_active(b: &Board) {
    assert!(b.control.running);
    assert!(b.timer_running);
}

#[test]
fn level_toggles() {
    assert_eq!(Level::Low.toggled(), Level::High);
    assert_eq!(Level::High.toggled(), Level::Low);
}

#[test]
fn controller_starts_not_running() {
    assert!(!Controller::new().running);
}

#[test]
fn controller_ignores_when_not_pending() {
    let mut c = Controller::new();
    assert_eq!(c.on_button_edge(false), ButtonAction::Ignore);
    assert!(!c.running);
    c.running = true;
    assert_eq!(c.on_button_edge(false), ButtonAction::Ignore);
    assert!(c.running);
}

#[test]
fn controller_starts_then_stops() {
    let mut c = Controller::new();
    assert_eq!(c.on_button_edge(true), ButtonAction::Start);
    assert!(c.running);
    assert_eq!(c.on_button_edge(true), ButtonAction::Stop);
    assert!(!c.running);
}

#[test]
fn new_board_is_idle() {
    let b = Board::new();
    assert_idle(&b);
    assert!(!b.button_pending);
    assert!(!b.timer_pending);
    assert!(!b.masked);
    assert_eq!(b.timer_count_ms, 0);
}

#[test]
fn press_start_blink_stop_scenario() {
    let mut b = Board::new();
    b.button_edge();
    assert_active(&b);
    assert_eq!(b.led, Level::High);
    b.elapse(1000);
    assert_eq!(b.led, Level::Low);
    b.elapse(1000);
    assert_eq!(b.led, Level::High);
    b.button_edge();
    assert_idle(&b);
    b.elapse(5000);
    assert_idle(&b);
    assert!(!b.timer_pending);
}

#[test]
fn running_follows_press_parity() {
    let mut b = Board::new();
    for n in 1..=7u32 {
        b.button_edge();
        b.elapse(1300);
        assert_eq!(b.control.running, n % 2 == 1);
        assert_eq!(b.timer_running, n % 2 == 1);
        if n % 2 == 0 {
            assert_idle(&b);
        }
    }
}

#[test]
fn spurious_button_interrupt_changes_nothing() {
    let mut b = Board::new();
    b.button_edge();
    b.elapse(400);
    let before = b;
    b.enter_protected();
    b.button_handler();
    b.leave_protected();
    assert_eq!(b, before);

    let mut idle = Board::new();
    let before = idle;
    idle.enter_protected();
    idle.button_handler();
    idle.leave_protected();
    assert_eq!(idle, before);
}

#[test]
fn button_handler_alone_without_pending_keeps_state() {
    let mut b = Board::new();
    b.enter_protected();
    let before = b;
    b.button_handler();
    assert_eq!(b, before);
}

#[test]
fn no_toggle_before_full_period() {
    let mut b = Board::new();
    b.button_edge();
    b.elapse(PERIOD_MS - 1);
    assert_eq!(b.led, Level::High);
    assert_eq!(b.timer_count_ms, 999);
    b.elapse(1);
    assert_eq!(b.led, Level::Low);
    assert_eq!(b.timer_count_ms, 0);
}

#[test]
fn one_toggle_per_period_from_any_phase() {
    let mut b = Board::new();
    b.button_edge();
    b.elapse(250);
    for _ in 0..5 {
        let led = b.led;
        b.elapse(PERIOD_MS);
        assert_eq!(b.led, led.toggled());
        assert_eq!(b.timer_count_ms, 250);
    }
}

#[test]
fn elapse_counts_whole_periods() {
    let mut b = Board::new();
    b.button_edge();
    b.elapse(2500);
    assert_eq!(b.led, Level::High);
    assert_eq!(b.timer_count_ms, 500);
    b.elapse(500);
    assert_eq!(b.led, Level::Low);
    assert_eq!(b.timer_count_ms, 0);
}

#[test]
fn elapse_in_slices_matches_elapse_at_once() {
    let mut whole = Board::new();
    whole.button_edge();
    let mut sliced = whole;
    whole.elapse(7300);
    for ms in [1u64, 999, 1234, 66, 5000] {
        sliced.elapse(ms);
    }
    assert_eq!(whole, sliced);
}

#[test]
fn idle_time_changes_nothing() {
    let mut b = Board::new();
    let before = b;
    b.elapse(u64::MAX);
    assert_eq!(b, before);
}

#[test]
fn transitions_set_pin_and_timer_together() {
    let mut b = Board::new();
    b.enter_protected();
    b.button_edge();
    assert!(b.button_pending);
    assert_idle(&b);
    b.button_handler();
    assert!(!b.button_pending);
    assert_active(&b);
    assert_eq!(b.led, Level::High);
    assert_eq!(b.timer_count_ms, 0);
    b.leave_protected();

    b.elapse(1000);
    assert_eq!(b.led, Level::Low);
    b.enter_protected();
    b.button_edge();
    b.button_handler();
    assert_idle(&b);
    b.leave_protected();
    assert_idle(&b);
}

#[test]
fn expiry_during_button_handler_is_deferred_once() {
    let mut b = Board::new();
    b.button_edge();
    b.elapse(999);
    assert_eq!(b.led, Level::High);

    b.enter_protected();
    b.button_edge();
    b.elapse(1);
    assert!(b.timer_pending);
    assert_eq!(b.led, Level::High);
    b.button_handler();
    assert!(b.timer_pending);
    assert!(!b.control.running);
    assert!(!b.timer_running);
    assert_eq!(b.led, Level::Low);
    b.leave_protected();
    assert!(!b.timer_pending);
    assert!(!b.masked);
    assert_eq!(b.led, Level::High);
    b.elapse(3000);
    assert_eq!(b.led, Level::High);
}

#[test]
fn timer_handler_acknowledges_and_toggles() {
    let mut b = Board::new();
    b.button_edge();
    b.enter_protected();
    b.timer_handler();
    assert_eq!(b.led, Level::Low);
    assert!(!b.timer_pending);
    b.leave_protected();
    assert_eq!(b.led, Level::Low);
}
