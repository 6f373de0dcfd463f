//! The endless blink tasks: high, hold, low, hold, and again, without an end.

use vstd::prelude::*;
use crate::action::{cycle_action, Action, Phase};
use crate::pin::{Level, OutputPin};

verus! {

/// On and off time of the default blink task, in milliseconds.
pub const DEFAULT_INTERVAL_MS: u64 = 500;

/// A blink task: the line it owns, its on and off times, and where in the
/// cycle it stands.
///
/// A task has no last state. Every call of [`BlinkTask::step`] yields an
/// action and leaves a task that yields the next.
#[derive(Debug, PartialEq, Eq)]
pub struct BlinkTask {
    pub led: OutputPin,
    pub on_ms: u64,
    pub off_ms: u64,
    pub phase: Phase,
}

impl BlinkTask {
    /// A task that has not taken a step yet: it will begin by driving the
    /// line high, whatever level the line has.
    pub open spec fn fresh(led: OutputPin, on_ms: u64, off_ms: u64) -> BlinkTask {
        BlinkTask { led, on_ms, off_ms, phase: Phase::SwitchOn }
    }

    /// The action that the next step yields.
    pub open spec fn next_action(self) -> Action {
        self.phase.spec_action(self.on_ms, self.off_ms)
    }

    /// The task after its next step.
    pub open spec fn stepped(self) -> BlinkTask {
        BlinkTask {
            led: OutputPin { level: self.next_action().level_from(self.led.level) },
            on_ms: self.on_ms,
            off_ms: self.off_ms,
            phase: self.phase.spec_next(),
        }
    }

    /// The task after `n` steps.
    pub open spec fn after(self, n: nat) -> BlinkTask
        decreases n,
    {
        if n == 0 {
            self
        } else {
            self.after((n - 1) as nat).stepped()
        }
    }

    /// Takes the next step of the cycle on the task's own line and returns it
    /// for the driver to carry out.
    pub fn step(&mut self) -> (action: Action)
        ensures
            action == old(self).next_action(),
            *final(self) == old(self).stepped(),
    {
        match self.phase {
            Phase::SwitchOn => {
                self.led.set_high();
                self.phase = Phase::HoldOn;
                Action::Drive(Level::High)
            },
            Phase::HoldOn => {
                self.phase = Phase::SwitchOff;
                Action::Wait(self.on_ms)
            },
            Phase::SwitchOff => {
                self.led.set_low();
                self.phase = Phase::HoldOff;
                Action::Drive(Level::Low)
            },
            Phase::HoldOff => {
                self.phase = Phase::SwitchOn;
                Action::Wait(self.off_ms)
            },
        }
    }
}

/// The blink task with the default times: 500 ms on, 500 ms off.
pub fn led_blink_task(led: OutputPin) -> (task: BlinkTask)
    ensures
        task == BlinkTask::fresh(led, DEFAULT_INTERVAL_MS, DEFAULT_INTERVAL_MS),
{
    BlinkTask {
        led,
        on_ms: DEFAULT_INTERVAL_MS,
        off_ms: DEFAULT_INTERVAL_MS,
        phase: Phase::SwitchOn,
    }
}

/// The blink task that is on for `interval_ms` and off for as long.
pub fn led_blink_task_custom(led: OutputPin, interval_ms: u64) -> (task: BlinkTask)
    ensures
        task == BlinkTask::fresh(led, interval_ms, interval_ms),
{
    BlinkTask { led, on_ms: interval_ms, off_ms: interval_ms, phase: Phase::SwitchOn }
}

/// The blink task that is on for `on_duration_ms` and off for
/// `off_duration_ms`.
pub fn led_blink_task_advanced(led: OutputPin, on_duration_ms: u64, off_duration_ms: u64) -> (task:
    BlinkTask)
    ensures
        task == BlinkTask::fresh(led, on_duration_ms, off_duration_ms),
{
    BlinkTask { led, on_ms: on_duration_ms, off_ms: off_duration_ms, phase: Phase::SwitchOn }
}

/// A blink task alternates for ever. Its step number `n`, counted from zero,
/// is step `n` of the cycle high, hold `on_ms`, low, hold `off_ms`; it keeps
/// its times; and once it has taken a step its line is high exactly between
/// a switch-on and the switch-off that follows.
pub proof fn lemma_task_alternates_forever(led: OutputPin, on_ms: u64, off_ms: u64, n: nat)
    ensures
        BlinkTask::fresh(led, on_ms, off_ms).after(n).next_action() == cycle_action(
            n as int,
            on_ms,
            off_ms,
        ),
        BlinkTask::fresh(led, on_ms, off_ms).after(n).phase == Phase::at(n as int),
        BlinkTask::fresh(led, on_ms, off_ms).after(n).on_ms == on_ms,
        BlinkTask::fresh(led, on_ms, off_ms).after(n).off_ms == off_ms,
        BlinkTask::fresh(led, on_ms, off_ms).after(n).led.level == (if n == 0 {
            led.level
        } else if n % 4 == 1 || n % 4 == 2 {
            Level::High
        } else {
            Level::Low
        }),
    decreases n,
{
    if n > 0 {
        lemma_task_alternates_forever(led, on_ms, off_ms, (n - 1) as nat);
    }
}

} // verus!
