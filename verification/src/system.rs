//! The state machine: three states, each with a fixed output sequence,
//! and the net pin levels that each sequence leaves behind.

use vstd::prelude::*;

verus! {

/// The three operating modes. `Idle` rests with both LEDs off; the two
/// patterns are selected by the two buttons and end with distinct levels.
#[derive(Clone, Copy, Debug, PartialEq, Eq, Structural)]
pub enum State {
    Idle,
    PatternA,
    PatternB,
}

/// Levels of the two output lines; `true` means the line is driven high.
#[derive(Clone, Copy, Debug, PartialEq, Eq, Structural)]
pub struct Pins {
    pub led_1: bool,
    pub led_2: bool,
}

/// One step of an output sequence: a pin write, or a blocking wait in
/// milliseconds. The caller performs these on the device in order.
#[derive(Clone, Copy, Debug, PartialEq, Eq, Structural)]
pub enum Action {
    SetLed1(bool),
    SetLed2(bool),
    DelayMs(u16),
}

/// Effect of one action on the pin levels; a wait changes nothing.
pub open spec fn apply_action(p: Pins, a: Action) -> Pins {
    match a {
        Action::SetLed1(level) => Pins { led_1: level, ..p },
        Action::SetLed2(level) => Pins { led_2: level, ..p },
        Action::DelayMs(_) => p,
    }
}

/// Effect of a whole sequence of actions, applied first to last.
pub open spec fn apply_actions(p: Pins, actions: Seq<Action>) -> Pins
    decreases actions.len(),
{
    if actions.len() == 0 {
        p
    } else {
        apply_action(apply_actions(p, actions.drop_last()), actions.last())
    }
}

/// The fixed output sequence that each state drives, exactly as the
/// device must perform it.
pub open spec fn action_sequence(s: State) -> Seq<Action> {
    match s {
        State::Idle => seq![Action::SetLed1(false), Action::SetLed2(false)],
        State::PatternA => seq![
            Action::SetLed1(true),
            Action::DelayMs(300),
            Action::SetLed1(false),
            Action::SetLed2(true),
            Action::DelayMs(300),
            Action::SetLed1(true),
        ],
        State::PatternB => seq![
            Action::SetLed1(true),
            Action::DelayMs(300),
            Action::SetLed2(false),
            Action::DelayMs(300),
        ],
    }
}

/// The pin levels at rest once a state's sequence has fully run:
/// `Idle` low/low, `PatternA` high/high, `PatternB` high/low.
pub open spec fn net_result(s: State) -> Pins {
    match s {
        State::Idle => Pins { led_1: false, led_2: false },
        State::PatternA => Pins { led_1: true, led_2: true },
        State::PatternB => Pins { led_1: true, led_2: false },
    }
}

/// A state's full sequence leaves its net result whatever the pin levels
/// were before it ran: every sequence writes both lines' final levels.
pub proof fn lemma_sequence_reaches_net_result(p: Pins, s: State)
    ensures
        apply_actions(p, action_sequence(s)) == net_result(s),
{
    reveal_with_fuel(apply_actions, 8);
    match s {
        State::Idle => {
            let q = action_sequence(s);
            assert(q.drop_last() =~= seq![Action::SetLed1(false)]);
        }
        State::PatternA => {
            let q = action_sequence(s);
            assert(q.drop_last() =~= seq![
                Action::SetLed1(true),
                Action::DelayMs(300),
                Action::SetLed1(false),
                Action::SetLed2(true),
                Action::DelayMs(300),
            ]);
        }
        State::PatternB => {
            let q = action_sequence(s);
            assert(q.drop_last() =~= seq![
                Action::SetLed1(true),
                Action::DelayMs(300),
                Action::SetLed2(false),
            ]);
        }
    }
}

/// Selecting the state that is already active replays its sequence: the
/// sequence is never empty, so pins are actually rewritten, and the levels
/// it leaves are the same net result it left the first time.
pub proof fn lemma_replay_same_state(s: State)
    ensures
        apply_actions(net_result(s), action_sequence(s)) == net_result(s),
        action_sequence(s).len() > 0,
{
    lemma_sequence_reaches_net_result(net_result(s), s);
}

/// Pin levels after `n` back-to-back runs of one state's sequence.
pub open spec fn run_updates(p: Pins, s: State, n: nat) -> Pins
    decreases n,
{
    if n == 0 {
        p
    } else {
        apply_actions(run_updates(p, s, (n - 1) as nat), action_sequence(s))
    }
}

/// A loop that re-renders the current state every iteration settles: from
/// any starting levels, one run reaches the state's net result and every
/// further run keeps it there. In particular, with no input the main loop
/// re-renders `Idle` forever and both lines stay low.
pub proof fn lemma_repeated_update_settles(p: Pins, s: State, n: nat)
    requires
        n >= 1,
    ensures
        run_updates(p, s, n) == net_result(s),
    decreases n,
{
    if n == 1 {
        assert(run_updates(p, s, 0) == p);
        lemma_sequence_reaches_net_result(p, s);
    } else {
        lemma_repeated_update_settles(p, s, (n - 1) as nat);
        lemma_sequence_reaches_net_result(run_updates(p, s, (n - 1) as nat), s);
    }
}

/// Pin levels when an interrupt is serviced partway through a sequence:
/// the outer sequence's first `split` actions run, the nested sequence for
/// the interrupt's state runs to completion, and then the outer sequence's
/// remaining actions run and overwrite the pins again.
pub open spec fn run_interrupted(p: Pins, outer: State, split: int, nested: State) -> Pins {
    apply_actions(
        apply_actions(
            apply_actions(p, action_sequence(outer).take(split)),
            action_sequence(nested),
        ),
        action_sequence(outer).skip(split),
    )
}

/// Reentrancy during `PatternB`: if button 1's interrupt is serviced during
/// the first wait of `PatternB`'s sequence, `PatternA`'s nested sequence
/// completes and the outer sequence then resumes, so the pins still end at
/// `PatternB`'s net result. The state field itself ends at `PatternA`,
/// which wins at rest: the next unconditional re-render runs `PatternA`'s
/// sequence and leaves its net result.
pub proof fn lemma_reentrant_interrupt_overwritten(p: Pins)
    ensures
        run_interrupted(p, State::PatternB, 2, State::PatternA) == net_result(State::PatternB),
{
    reveal_with_fuel(apply_actions, 8);
    let outer = action_sequence(State::PatternB);
    assert(outer.take(2) =~= seq![Action::SetLed1(true), Action::DelayMs(300)]);
    assert(outer.take(2).drop_last() =~= seq![Action::SetLed1(true)]);
    assert(outer.skip(2) =~= seq![Action::SetLed2(false), Action::DelayMs(300)]);
    assert(outer.skip(2).drop_last() =~= seq![Action::SetLed2(false)]);
    let after_prefix = apply_actions(p, outer.take(2));
    lemma_sequence_reaches_net_result(after_prefix, State::PatternA);
}

/// The sole stateful entity: the current mode, and a model of the two
/// LED lines it exclusively drives. The real lines belong to the hardware
/// shell, which performs every returned action on them in order, so the
/// modelled levels and the physical levels agree between transitions.
pub struct System {
    state: State,
    led_1: bool,
    led_2: bool,
}

impl System {
    /// The current mode.
    pub closed spec fn state_view(self) -> State {
        self.state
    }

    /// The modelled levels of the two LED lines.
    pub closed spec fn pins_view(self) -> Pins {
        Pins { led_1: self.led_1, led_2: self.led_2 }
    }

    /// The resting invariant: the line levels are exactly what the current
    /// state's sequence leaves behind. It holds at every observable point
    /// after the first transition or re-render; only construction, which
    /// drives no output yet, leaves it unestablished.
    pub open spec fn at_rest(self) -> bool {
        self.pins_view() == net_result(self.state_view())
    }

    /// Takes the initial levels of the two lines and rests in `Idle`
    /// without driving any output yet.
    pub fn new(led_1: bool, led_2: bool) -> (s: System)
        ensures
            s.state_view() == State::Idle,
            s.pins_view() == (Pins { led_1, led_2 }),
    {
        System { state: State::Idle, led_1, led_2 }
    }

    /// The current mode, for callers outside the machine.
    pub fn state(&self) -> (r: State)
        ensures
            r == self.state_view(),
    {
        self.state
    }

    /// The modelled pin levels, for callers outside the machine.
    pub fn pins(&self) -> (r: Pins)
        ensures
            r == self.pins_view(),
    {
        Pins { led_1: self.led_1, led_2: self.led_2 }
    }

    /// Runs the current state's output sequence, leaving the state itself
    /// alone. Returns the exact actions for the device to perform; the
    /// modelled levels end at the state's net result whatever they were
    /// before, since every sequence writes both lines' final levels.
    pub fn update(&mut self) -> (actions: Vec<Action>)
        ensures
            final(self).state_view() == old(self).state_view(),
            actions@ == action_sequence(old(self).state_view()),
            final(self).pins_view() == apply_actions(old(self).pins_view(), actions@),
            final(self).at_rest(),
    {
        let mut actions: Vec<Action> = Vec::new();
        match self.state {
            State::Idle => {
                actions.push(Action::SetLed1(false));
                self.led_1 = false;
                actions.push(Action::SetLed2(false));
                self.led_2 = false;
            }
            State::PatternA => {
                actions.push(Action::SetLed1(true));
                self.led_1 = true;
                actions.push(Action::DelayMs(300));
                actions.push(Action::SetLed1(false));
                self.led_1 = false;
                actions.push(Action::SetLed2(true));
                self.led_2 = true;
                actions.push(Action::DelayMs(300));
                actions.push(Action::SetLed1(true));
                self.led_1 = true;
            }
            State::PatternB => {
                actions.push(Action::SetLed1(true));
                self.led_1 = true;
                actions.push(Action::DelayMs(300));
                actions.push(Action::SetLed2(false));
                self.led_2 = false;
                actions.push(Action::DelayMs(300));
            }
        }
        proof {
            assert(actions@ =~= action_sequence(old(self).state_view()));
            lemma_sequence_reaches_net_result(old(self).pins_view(), old(self).state_view());
        }
        actions
    }

    /// Assigns the new state and immediately runs its full sequence, even
    /// when the new state equals the old one: selecting the active state
    /// again replays its pattern rather than short-circuiting.
    pub fn set_state(&mut self, new_state: State) -> (actions: Vec<Action>)
        ensures
            final(self).state_view() == new_state,
            actions@ == action_sequence(new_state),
            final(self).pins_view() == apply_actions(old(self).pins_view(), actions@),
            final(self).at_rest(),
    {
        self.state = new_state;
        self.update()
    }
}

} // verus!
