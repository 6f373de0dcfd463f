//! What a driver is asked to do, one step at a time, and the on/off cycle
//! that every blink pattern is cut from.

use vstd::prelude::*;
use crate::pin::Level;

verus! {

/// One thing for the driver to do before it asks for the next.
#[derive(Clone, Copy, Debug, PartialEq, Eq, Structural)]
pub enum Action {
    /// Drive the output line to this level.
    Drive(Level),
    /// Suspend for this many milliseconds. Zero is a legal wait.
    Wait(u64),
}

impl Action {
    /// The level of a line that was at `before` once this action is done.
    pub open spec fn level_from(self, before: Level) -> Level {
        match self {
            Action::Drive(level) => level,
            Action::Wait(_) => before,
        }
    }
}

/// Where a blinker stands in its cycle: the step it takes next.
#[derive(Clone, Copy, Debug, PartialEq, Eq, Structural)]
pub enum Phase {
    /// About to drive the line high.
    SwitchOn,
    /// About to wait with the line high.
    HoldOn,
    /// About to drive the line low.
    SwitchOff,
    /// About to wait with the line low.
    HoldOff,
}

impl Phase {
    /// Position in the cycle, counted from `SwitchOn`.
    pub open spec fn index(self) -> int {
        match self {
            Phase::SwitchOn => 0,
            Phase::HoldOn => 1,
            Phase::SwitchOff => 2,
            Phase::HoldOff => 3,
        }
    }

    /// The phase `i` steps after `SwitchOn`.
    pub open spec fn at(i: int) -> Phase {
        if i % 4 == 0 {
            Phase::SwitchOn
        } else if i % 4 == 1 {
            Phase::HoldOn
        } else if i % 4 == 2 {
            Phase::SwitchOff
        } else {
            Phase::HoldOff
        }
    }

    /// The phase one step further round the cycle.
    pub open spec fn spec_next(self) -> Phase {
        Phase::at(self.index() + 1)
    }

    /// What is done in this phase: a switch, or a wait of the on or the
    /// off time.
    pub open spec fn spec_action(self, on_ms: u64, off_ms: u64) -> Action {
        match self {
            Phase::SwitchOn => Action::Drive(Level::High),
            Phase::HoldOn => Action::Wait(on_ms),
            Phase::SwitchOff => Action::Drive(Level::Low),
            Phase::HoldOff => Action::Wait(off_ms),
        }
    }

    /// The phase that follows this one; after `HoldOff` the cycle starts over.
    #[verifier::when_used_as_spec(spec_next)]
    pub fn next(self) -> (phase: Phase)
        ensures
            phase == self.spec_next(),
    {
        match self {
            Phase::SwitchOn => Phase::HoldOn,
            Phase::HoldOn => Phase::SwitchOff,
            Phase::SwitchOff => Phase::HoldOff,
            Phase::HoldOff => Phase::SwitchOn,
        }
    }

    /// The step taken in this phase, for the given on and off times.
    #[verifier::when_used_as_spec(spec_action)]
    pub fn action(self, on_ms: u64, off_ms: u64) -> (action: Action)
        ensures
            action == self.spec_action(on_ms, off_ms),
    {
        match self {
            Phase::SwitchOn => Action::Drive(Level::High),
            Phase::HoldOn => Action::Wait(on_ms),
            Phase::SwitchOff => Action::Drive(Level::Low),
            Phase::HoldOff => Action::Wait(off_ms),
        }
    }
}

/// Step `i` of the endless cycle: high, wait `on_ms`, low, wait `off_ms`,
/// and again.
pub open spec fn cycle_action(i: int, on_ms: u64, off_ms: u64) -> Action {
    Phase::at(i).spec_action(on_ms, off_ms)
}

/// The level of a line that started at `start` after the driver has carried
/// out `actions` in order: that of the last `Drive`, or `start` if there is none.
pub open spec fn level_after(start: Level, actions: Seq<Action>) -> Level
    decreases actions.len(),
{
    if actions.len() == 0 {
        start
    } else {
        actions.last().level_from(level_after(start, actions.drop_last()))
    }
}

/// How many times `actions` drives the line to `level`.
pub open spec fn switches_to(actions: Seq<Action>, level: Level) -> nat
    decreases actions.len(),
{
    if actions.len() == 0 {
        0
    } else {
        let earlier = switches_to(actions.drop_last(), level);
        if actions.last() == Action::Drive(level) {
            earlier + 1
        } else {
            earlier
        }
    }
}

/// Carrying out one more action changes the level by that action alone, and
/// counts as a switch exactly if it drives the line to the level asked about.
pub proof fn lemma_one_more_action(start: Level, actions: Seq<Action>, action: Action)
    ensures
        level_after(start, actions.push(action)) == action.level_from(
            level_after(start, actions),
        ),
        forall|level: Level| #[trigger]
            switches_to(actions.push(action), level) == switches_to(actions, level) + (if action
                == Action::Drive(level) {
                1nat
            } else {
                0nat
            }),
{
    assert(actions.push(action).drop_last() =~= actions);
    assert(actions.push(action).last() == action);
}

} // verus!
