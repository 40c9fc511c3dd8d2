use vstd::prelude::*;

verus! {

/// The level an output pin is driven to.
#[derive(Clone, Copy, Debug, PartialEq, Eq, Structural)]
pub enum PinLevel {
    Low,
    High,
}

/// Which level the blink controller is currently holding on its output pin.
/// The state space is binary: the pin is either held at its active level or
/// at its inactive level.
#[derive(Clone, Copy, Debug, PartialEq, Eq, Structural)]
pub enum BlinkState {
    OffHeld,
    OnHeld,
}

/// What the platform must do after a timer-expiry interrupt: drive the
/// output pin to `drive` and rearm the timer to fire again after
/// `rearm_ns` nanoseconds.
#[derive(Clone, Copy, Debug, PartialEq, Eq, Structural)]
pub struct TimerCommand {
    pub drive: PinLevel,
    pub rearm_ns: u64,
}

/// Hold time at the active level before the next transition (short hold).
pub const HOLD_ON_NS: u64 = 300;

/// Hold time at the inactive level before the next transition (long hold).
pub const HOLD_OFF_NS: u64 = 600;

/// The transition rule of the blink state machine: from `OffHeld` the pin
/// is driven active and held for the short interval; from `OnHeld` it is
/// driven inactive and held for the long interval.
pub open spec fn spec_timer_step(state: BlinkState) -> (BlinkState, TimerCommand) {
    match state {
        BlinkState::OffHeld => (
            BlinkState::OnHeld,
            TimerCommand { drive: PinLevel::High, rearm_ns: HOLD_ON_NS },
        ),
        BlinkState::OnHeld => (
            BlinkState::OffHeld,
            TimerCommand { drive: PinLevel::Low, rearm_ns: HOLD_OFF_NS },
        ),
    }
}

/// The pin level after `n` timer interrupts, counted from the initial
/// synchronous drive to the active level: high after an even number of
/// interrupts, low after an odd number.
pub open spec fn spec_level_after(n: nat) -> PinLevel {
    if n % 2 == 1 {
        PinLevel::Low
    } else {
        PinLevel::High
    }
}

/// The controller state after `n` timer interrupts.
pub open spec fn spec_state_after(n: nat) -> BlinkState {
    if n % 2 == 1 {
        BlinkState::OffHeld
    } else {
        BlinkState::OnHeld
    }
}

/// Strict alternation of the blink pattern: each timer interrupt flips the
/// pin level, so after the (n+1)-th interrupt the pin is at the opposite
/// level from after the n-th, low after an odd count and high after an
/// even count; the state machine never holds the same level twice in a row.
pub proof fn lemma_blink_strict_alternation(n: nat)
    ensures
        spec_timer_step(spec_state_after(n)).0 == spec_state_after(n + 1),
        spec_timer_step(spec_state_after(n)).1.drive == spec_level_after(n + 1),
        spec_level_after(n + 1) != spec_level_after(n),
{
}

/// Debounce asymmetry: the rearm interval after a transition to the active
/// level is the short hold, the one after a transition to the inactive
/// level is the long hold, and the two constants are distinct.
pub proof fn lemma_debounce_asymmetry()
    ensures
        HOLD_ON_NS != HOLD_OFF_NS,
        forall|s: BlinkState|
            (#[trigger] spec_timer_step(s)).1.drive == PinLevel::High
                ==> spec_timer_step(s).1.rearm_ns == HOLD_ON_NS,
        forall|s: BlinkState|
            (#[trigger] spec_timer_step(s)).1.drive == PinLevel::Low
                ==> spec_timer_step(s).1.rearm_ns == HOLD_OFF_NS,
{
}

/// Drives an output pin through an alternating on/off sequence with
/// asymmetric hold times, one transition per timer-expiry interrupt.
///
/// The controller only decides; the platform performs each returned
/// `TimerCommand` (pin write, timer rearm) and must clear the hardware
/// pending flag of the interrupt before returning from the handler.
pub struct BlinkDebounceController {
    state: BlinkState,
    level: PinLevel,
    ticks: Ghost<nat>,
}

impl BlinkDebounceController {
    pub closed spec fn state(&self) -> BlinkState {
        self.state
    }

    /// The level the output pin is held at, as last commanded.
    pub closed spec fn level(&self) -> PinLevel {
        self.level
    }

    /// How many timer interrupts the controller has handled.
    pub closed spec fn ticks(&self) -> nat {
        self.ticks@
    }

    /// The controller's invariant: its held level and state are exactly
    /// those the transition rule prescribes after `ticks` interrupts.
    pub closed spec fn wf(&self) -> bool {
        &&& self.level == spec_level_after(self.ticks@)
        &&& self.state == spec_state_after(self.ticks@)
    }

    /// A fresh controller, matching an output pin that setup code has just
    /// driven to its active (high) level, before interrupts are unmasked.
    pub fn new() -> (c: Self)
        ensures
            c.wf(),
            c.ticks() == 0,
            c.level() == PinLevel::High,
            c.state() == BlinkState::OnHeld,
    {
        Self { state: BlinkState::OnHeld, level: PinLevel::High, ticks: Ghost(0) }
    }

    /// Handle one timer-expiry interrupt: take one step of the transition
    /// rule and return the pin level to drive and the interval to rearm
    /// the timer with.
    pub fn on_timer_expiry(&mut self) -> (cmd: TimerCommand)
        requires
            old(self).wf(),
        ensures
            final(self).wf(),
            (final(self).state(), cmd) == spec_timer_step(old(self).state()),
            final(self).level() == cmd.drive,
            final(self).ticks() == old(self).ticks() + 1,
            final(self).level() == spec_level_after(old(self).ticks() + 1),
    {
        self.ticks = Ghost(self.ticks@ + 1);
        match self.state {
            BlinkState::OffHeld => {
                self.state = BlinkState::OnHeld;
                self.level = PinLevel::High;
                TimerCommand { drive: PinLevel::High, rearm_ns: HOLD_ON_NS }
            },
            BlinkState::OnHeld => {
                self.state = BlinkState::OffHeld;
                self.level = PinLevel::Low;
                TimerCommand { drive: PinLevel::Low, rearm_ns: HOLD_OFF_NS }
            },
        }
    }
}

/// What a toggle does to a pin level.
pub open spec fn spec_toggle(level: PinLevel) -> PinLevel {
    match level {
        PinLevel::Low => PinLevel::High,
        PinLevel::High => PinLevel::Low,
    }
}

/// Two toggles cancel: a switch edge interrupt that fires twice in
/// succession leaves the output pin at the level it started from.
pub proof fn lemma_double_toggle(level: PinLevel)
    ensures
        spec_toggle(spec_toggle(level)) == level,
{
}

/// The debounce-free variant of the controller, used when no periodic
/// timer is present: each switch-edge interrupt toggles the output pin
/// once. The platform drives the pin to the returned level and clears the
/// edge interrupt's pending flag before returning from the handler.
pub struct EdgeToggleController {
    level: PinLevel,
}

impl EdgeToggleController {
    /// The level the output pin is held at, as last commanded.
    pub closed spec fn level(&self) -> PinLevel {
        self.level
    }

    /// A fresh controller for a pin currently held at `level`.
    pub fn new(level: PinLevel) -> (c: Self)
        ensures
            c.level() == level,
    {
        Self { level }
    }

    /// Handle one switch-edge interrupt: toggle the held level and return
    /// the level the platform must drive the pin to.
    pub fn on_switch_edge(&mut self) -> (drive: PinLevel)
        ensures
            drive == spec_toggle(old(self).level()),
            final(self).level() == drive,
    {
        let next = match self.level {
            PinLevel::Low => PinLevel::High,
            PinLevel::High => PinLevel::Low,
        };
        self.level = next;
        next
    }
}

} // verus!
