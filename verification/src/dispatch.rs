//! Input handling decisions: which state each button selects, and the
//! debounced release rule that forces the machine back to `Idle`.

use vstd::prelude::*;

use crate::system::action_sequence;
use crate::system::apply_actions;
use crate::system::net_result;
use crate::system::lemma_sequence_reaches_net_result;
use crate::system::Action;
use crate::system::Pins;
use crate::system::State;
use crate::system::System;

verus! {

/// How long a release must be sustained before the poll re-checks the
/// lines and, on a second all-unpressed reading, resets to `Idle`.
pub const DEBOUNCE_WINDOW_MS: u16 = 50;

/// The two push buttons, wired active-low on pulled-up input lines.
#[derive(Clone, Copy, Debug, PartialEq, Eq, Structural)]
pub enum Button {
    Button1,
    Button2,
}

/// Both buttons read "unpressed" when both input lines read high.
pub fn all_unpressed(button_1_high: bool, button_2_high: bool) -> (r: bool)
    ensures
        r == (button_1_high && button_2_high),
{
    button_1_high && button_2_high
}

/// Debounce rule for release detection: the poll samples the lines, waits
/// out the debounce window, and samples again. A reset to `Idle` is owed
/// exactly when both samples read all-unpressed, so a single transient
/// release sample during a held press never triggers one.
pub fn release_confirmed(first_all_unpressed: bool, second_all_unpressed: bool) -> (r: bool)
    ensures
        r == (first_all_unpressed && second_all_unpressed),
{
    first_all_unpressed && second_all_unpressed
}

/// The state that each button's falling edge requests.
pub open spec fn button_target(b: Button) -> State {
    match b {
        Button::Button1 => State::PatternA,
        Button::Button2 => State::PatternB,
    }
}

/// The one log line emitted on each transition.
pub open spec fn log_line_view(s: State) -> Seq<char> {
    match s {
        State::Idle => "Set 0"@,
        State::PatternA => "Set 1"@,
        State::PatternB => "Set 2"@,
    }
}

/// The text logged when a transition to `s` is requested.
pub fn log_line(s: State) -> (r: &'static str)
    ensures
        r@ == log_line_view(s),
{
    match s {
        State::Idle => "Set 0",
        State::PatternA => "Set 1",
        State::PatternB => "Set 2",
    }
}

/// A button's interrupt handler body: logs the transition and forces the
/// button's state, replaying that state's full sequence. Returns the log
/// line and the actions for the device to perform.
pub fn handle_button(system: &mut System, button: Button) -> (r: (&'static str, Vec<Action>))
    ensures
        final(system).state_view() == button_target(button),
        final(system).at_rest(),
        r.0@ == log_line_view(button_target(button)),
        r.1@ == action_sequence(button_target(button)),
{
    let target = match button {
        Button::Button1 => State::PatternA,
        Button::Button2 => State::PatternB,
    };
    let line = log_line(target);
    let actions = system.set_state(target);
    (line, actions)
}

/// The poll's confirmed-release body: logs the reset and forces `Idle`,
/// replaying its sequence. Returns the log line and the actions for the
/// device to perform.
pub fn force_idle(system: &mut System) -> (r: (&'static str, Vec<Action>))
    ensures
        final(system).state_view() == State::Idle,
        final(system).at_rest(),
        r.0@ == log_line_view(State::Idle),
        r.1@ == action_sequence(State::Idle),
{
    let line = log_line(State::Idle);
    let actions = system.set_state(State::Idle);
    (line, actions)
}

/// One whole main-loop iteration, once the poll has sampled the input
/// lines, waited out the debounce window, and sampled them again. When
/// both samples read all-unpressed the machine is reset to `Idle` with its
/// log line; in every iteration the current state is then re-rendered
/// unconditionally. Returns the log line, if any, and all actions for the
/// device to perform in order.
pub fn poll_iteration(
    system: &mut System,
    first_all_unpressed: bool,
    second_all_unpressed: bool,
) -> (r: (Option<&'static str>, Vec<Action>))
    ensures
        (first_all_unpressed && second_all_unpressed) ==> {
            &&& final(system).state_view() == State::Idle
            &&& r.0 matches Some(line) && line@ == log_line_view(State::Idle)
            &&& r.1@ == action_sequence(State::Idle) + action_sequence(State::Idle)
        },
        !(first_all_unpressed && second_all_unpressed) ==> {
            &&& final(system).state_view() == old(system).state_view()
            &&& r.0 is None
            &&& r.1@ == action_sequence(old(system).state_view())
        },
        final(system).at_rest(),
{
    if release_confirmed(first_all_unpressed, second_all_unpressed) {
        let (line, mut actions) = force_idle(system);
        let mut rendered = system.update();
        actions.append(&mut rendered);
        (Some(line), actions)
    } else {
        let actions = system.update();
        (None, actions)
    }
}

/// An external input that requests a transition: a falling edge on either
/// button line, or a release sustained across the debounce window.
#[derive(Clone, Copy, Debug, PartialEq, Eq, Structural)]
pub enum Event {
    Button1Pressed,
    Button2Pressed,
    ReleaseSettled,
}

/// The state that each external event forces.
pub open spec fn event_target(e: Event) -> State {
    match e {
        Event::Button1Pressed => State::PatternA,
        Event::Button2Pressed => State::PatternB,
        Event::ReleaseSettled => State::Idle,
    }
}

/// Pin levels after a whole sequence of external events, each transition
/// running its state's full output sequence to completion.
pub open spec fn run_events(p: Pins, events: Seq<Event>) -> Pins
    decreases events.len(),
{
    if events.len() == 0 {
        p
    } else {
        apply_actions(run_events(p, events.drop_last()), action_sequence(event_target(events.last())))
    }
}

/// For every sequence of press and settled-release events, the pin levels
/// after the last fully completed transition are the net result of the
/// state that the last event forced, whatever the levels were at start.
pub proof fn lemma_events_end_at_last_net_result(p: Pins, events: Seq<Event>)
    requires
        events.len() > 0,
    ensures
        run_events(p, events) == net_result(event_target(events.last())),
{
    lemma_sequence_reaches_net_result(
        run_events(p, events.drop_last()),
        event_target(events.last()),
    );
}

} // verus!
