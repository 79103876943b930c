use led_controller::dispatch::all_unpressed;
use led_controller::dispatch::force_idle;
use led_controller::dispatch::handle_button;
use led_controller::dispatch::log_line;
use led_controller::dispatch::poll_iteration;
use led_controller::dispatch::release_confirmed;
use led_controller::dispatch::Button;
use led_controller::system::Action;
use led_controller::system::Pins;
use led_controller::system::State;
use led_controller::system::System;

/// Mirrors what the device does with an action list: pin writes change the
/// line levels, waits change nothing.
fn run_on_board(levels: (bool, bool), actions: &[Action]) -> (bool, bool) {
    let mut levels = levels;
    for a in actions {
        match a {
            Action::SetLed1(v) => levels.0 = *v,
            Action::SetLed2(v) => levels.1 = *v,
            Action::DelayMs(_) => {}
        }
    }
    levels
}

#[test]
fn new_system_rests_in_idle_without_driving_output() {
    let system = System::new(true, false);
    assert_eq!(system.state(), State::Idle);
    assert_eq!(system.pins(), Pins { led_1: true, led_2: false });
}

#[test]
fn idle_sequence_is_exactly_two_writes() {
    let mut system = System::new(true, true);
    let actions = system.set_state(State::Idle);
    assert_eq!(actions, vec![Action::SetLed1(false), Action::SetLed2(false)]);
    assert_eq!(system.pins(), Pins { led_1: false, led_2: false });
}

#[test]
fn pattern_a_sequence_is_exact_and_ends_high_high() {
    let mut system = System::new(false, false);
    let actions = system.set_state(State::PatternA);
    assert_eq!(
        actions,
        vec![
            Action::SetLed1(true),
            Action::DelayMs(300),
            Action::SetLed1(false),
            Action::SetLed2(true),
            Action::DelayMs(300),
            Action::SetLed1(true),
        ]
    );
    assert_eq!(system.pins(), Pins { led_1: true, led_2: true });
    assert_eq!(system.state(), State::PatternA);
}

#[test]
fn pattern_b_sequence_is_exact_and_ends_high_low() {
    let mut system = System::new(false, true);
    let actions = system.set_state(State::PatternB);
    assert_eq!(
        actions,
        vec![
            Action::SetLed1(true),
            Action::DelayMs(300),
            Action::SetLed2(false),
            Action::DelayMs(300),
        ]
    );
    assert_eq!(system.pins(), Pins { led_1: true, led_2: false });
    assert_eq!(system.state(), State::PatternB);
}

#[test]
fn update_re_renders_without_changing_state() {
    let mut system = System::new(false, false);
    system.set_state(State::PatternB);
    let actions = system.update();
    assert_eq!(system.state(), State::PatternB);
    assert_eq!(actions.len(), 4);
    assert_eq!(system.pins(), Pins { led_1: true, led_2: false });
}

#[test]
fn board_levels_follow_the_returned_actions() {
    let mut system = System::new(false, false);
    let mut board = (false, false);
    board = run_on_board(board, &system.set_state(State::PatternA));
    assert_eq!(board, (true, true));
    board = run_on_board(board, &system.set_state(State::PatternB));
    assert_eq!(board, (true, false));
    board = run_on_board(board, &system.set_state(State::Idle));
    assert_eq!(board, (false, false));
}

#[test]
fn replaying_the_active_state_is_not_a_noop() {
    let mut system = System::new(false, false);
    let first = system.set_state(State::PatternA);
    let again = system.set_state(State::PatternA);
    assert!(!again.is_empty());
    assert_eq!(first, again);
    assert_eq!(system.pins(), Pins { led_1: true, led_2: true });
}

#[test]
fn final_levels_track_the_last_event_of_any_chain() {
    let mut system = System::new(true, true);
    handle_button(&mut system, Button::Button2);
    handle_button(&mut system, Button::Button1);
    force_idle(&mut system);
    assert_eq!(system.pins(), Pins { led_1: false, led_2: false });

    handle_button(&mut system, Button::Button1);
    handle_button(&mut system, Button::Button2);
    assert_eq!(system.pins(), Pins { led_1: true, led_2: false });
}

#[test]
fn debounce_window_is_fifty_milliseconds() {
    assert_eq!(led_controller::dispatch::DEBOUNCE_WINDOW_MS, 50);
}

#[test]
fn transient_release_sample_does_not_confirm() {
    assert!(!release_confirmed(true, false));
    assert!(!release_confirmed(false, true));
    assert!(!release_confirmed(false, false));
    assert!(release_confirmed(true, true));
}

#[test]
fn unpressed_needs_both_lines_high() {
    assert!(all_unpressed(true, true));
    assert!(!all_unpressed(true, false));
    assert!(!all_unpressed(false, true));
    assert!(!all_unpressed(false, false));
}

#[test]
fn log_lines_name_each_state() {
    assert_eq!(log_line(State::Idle), "Set 0");
    assert_eq!(log_line(State::PatternA), "Set 1");
    assert_eq!(log_line(State::PatternB), "Set 2");
}

#[test]
fn button_one_edge_logs_and_ends_high_high() {
    let mut system = System::new(false, false);
    let mut board = (false, false);
    let (line, actions) = handle_button(&mut system, Button::Button1);
    assert_eq!(line, "Set 1");
    board = run_on_board(board, &actions);
    assert_eq!(board, (true, true));
    assert_eq!(system.state(), State::PatternA);
}

#[test]
fn button_two_edge_logs_and_ends_high_low() {
    let mut system = System::new(false, false);
    let (line, actions) = handle_button(&mut system, Button::Button2);
    assert_eq!(line, "Set 2");
    assert_eq!(run_on_board((false, false), &actions), (true, false));
}

#[test]
fn confirmed_release_logs_and_resets() {
    let mut system = System::new(true, true);
    system.set_state(State::PatternA);
    let (line, actions) = force_idle(&mut system);
    assert_eq!(line, "Set 0");
    assert_eq!(run_on_board((true, true), &actions), (false, false));
    assert_eq!(system.state(), State::Idle);
}

#[test]
fn quiet_main_loop_settles_into_idle_forever() {
    let mut system = System::new(true, true);
    let mut board = (true, true);
    for _ in 0..5 {
        let (line, actions) = poll_iteration(&mut system, true, true);
        assert_eq!(line, Some("Set 0"));
        board = run_on_board(board, &actions);
        assert_eq!(board, (false, false));
        assert_eq!(system.state(), State::Idle);
    }
}

#[test]
fn held_press_keeps_the_pattern_re_animating() {
    let mut system = System::new(false, false);
    system.set_state(State::PatternB);
    for _ in 0..3 {
        let (line, actions) = poll_iteration(&mut system, false, false);
        assert_eq!(line, None);
        assert_eq!(actions.len(), 4);
        assert_eq!(system.state(), State::PatternB);
        assert_eq!(system.pins(), Pins { led_1: true, led_2: false });
    }
}

#[test]
fn transient_release_mid_press_does_not_reset() {
    let mut system = System::new(false, false);
    system.set_state(State::PatternB);
    let (line, _) = poll_iteration(&mut system, true, false);
    assert_eq!(line, None);
    assert_eq!(system.state(), State::PatternB);
}

#[test]
fn nested_interrupt_during_first_wait_is_overwritten() {
    // A press on button 1 serviced during PatternB's first wait: the first
    // two outer actions have run, PatternA's nested sequence completes, and
    // the outer sequence's remaining actions run last and win.
    let mut system = System::new(false, false);
    let outer = system.set_state(State::PatternB);
    let (_, nested) = handle_button(&mut system, Button::Button1);
    let mut board = (false, false);
    board = run_on_board(board, &outer[..2]);
    board = run_on_board(board, &nested);
    board = run_on_board(board, &outer[2..]);
    assert_eq!(board, (true, false));
    // At rest the reassigned state field wins: the loop's next re-render
    // runs PatternA's sequence.
    let (line, actions) = poll_iteration(&mut system, false, false);
    assert_eq!(line, None);
    assert_eq!(system.state(), State::PatternA);
    assert_eq!(run_on_board(board, &actions), (true, true));
}
