//! Finite blink patterns: what they consist of, and a cursor that hands them
//! to a driver one action at a time.

use vstd::prelude::*;
use crate::action::{
    cycle_action, lemma_one_more_action, level_after, switches_to, Action, Phase,
};
use crate::pin::Level;

verus! {

/// One blink: on, hold for `duration_ms`, off.
pub open spec fn blink_once_actions(duration_ms: u64) -> Seq<Action> {
    seq![Action::Drive(Level::High), Action::Wait(duration_ms), Action::Drive(Level::Low)]
}

/// `count` rounds, each of them one blink followed by a pause as long as the
/// blink.
pub open spec fn blink_multiple_actions(count: nat, duration_ms: u64) -> Seq<Action>
    decreases count,
{
    if count == 0 {
        Seq::empty()
    } else {
        blink_multiple_actions((count - 1) as nat, duration_ms)
            + blink_once_actions(duration_ms).push(Action::Wait(duration_ms))
    }
}

/// The first `len` actions of the endless cycle, starting in `phase`.
pub open spec fn cycle_from(phase: Phase, len: nat, on_ms: u64, off_ms: u64) -> Seq<Action> {
    Seq::new(len, |i: int| cycle_action(phase.index() + i, on_ms, off_ms))
}

/// `count` rounds are the first `4 * count` actions of the cycle whose on and
/// off times are both `duration_ms`.
pub proof fn lemma_blink_multiple_is_cycle(count: nat, duration_ms: u64)
    ensures
        blink_multiple_actions(count, duration_ms) == cycle_from(
            Phase::SwitchOn,
            4 * count,
            duration_ms,
            duration_ms,
        ),
    decreases count,
{
    if count > 0 {
        lemma_blink_multiple_is_cycle((count - 1) as nat, duration_ms);
    }
    assert(blink_multiple_actions(count, duration_ms) =~= cycle_from(
        Phase::SwitchOn,
        4 * count,
        duration_ms,
        duration_ms,
    ));
}

/// One blink drives the line high once and low once, and leaves it low.
pub proof fn lemma_blink_once_ends_low(duration_ms: u64, start: Level)
    ensures
        switches_to(blink_once_actions(duration_ms), Level::High) == 1,
        switches_to(blink_once_actions(duration_ms), Level::Low) == 1,
        level_after(start, blink_once_actions(duration_ms)) == Level::Low,
{
    let on = Action::Drive(Level::High);
    let hold = Action::Wait(duration_ms);
    let off = Action::Drive(Level::Low);
    let none = Seq::<Action>::empty();
    lemma_one_more_action(start, none, on);
    lemma_one_more_action(start, none.push(on), hold);
    lemma_one_more_action(start, none.push(on).push(hold), off);
    assert(blink_once_actions(duration_ms) =~= none.push(on).push(hold).push(off));
}

/// `count` rounds take four actions each, drive the line high exactly `count`
/// times and low exactly `count` times, and leave it low. With no round at
/// all nothing is done, and the line stays as it was.
pub proof fn lemma_blink_multiple_rounds(count: nat, duration_ms: u64, start: Level)
    ensures
        blink_multiple_actions(count, duration_ms).len() == 4 * count,
        switches_to(blink_multiple_actions(count, duration_ms), Level::High) == count,
        switches_to(blink_multiple_actions(count, duration_ms), Level::Low) == count,
        level_after(start, blink_multiple_actions(count, duration_ms)) == (if count == 0 {
            start
        } else {
            Level::Low
        }),
    decreases count,
{
    if count > 0 {
        let on = Action::Drive(Level::High);
        let hold = Action::Wait(duration_ms);
        let off = Action::Drive(Level::Low);
        let earlier = blink_multiple_actions((count - 1) as nat, duration_ms);
        lemma_blink_multiple_rounds((count - 1) as nat, duration_ms, start);
        lemma_one_more_action(start, earlier, on);
        lemma_one_more_action(start, earlier.push(on), hold);
        lemma_one_more_action(start, earlier.push(on).push(hold), off);
        lemma_one_more_action(start, earlier.push(on).push(hold).push(off), hold);
        assert(blink_multiple_actions(count, duration_ms) =~= earlier.push(on).push(hold).push(
            off,
        ).push(hold));
    }
}

/// A finite sequence of actions that is handed out front to back.
///
/// The view is what has not been handed out yet.
#[derive(Debug)]
pub struct BlinkScript {
    on_ms: u64,
    off_ms: u64,
    phase: Phase,
    remaining: u64,
}

impl View for BlinkScript {
    type V = Seq<Action>;

    closed spec fn view(&self) -> Seq<Action> {
        cycle_from(self.phase, self.remaining as nat, self.on_ms, self.off_ms)
    }
}

impl BlinkScript {
    /// The script of one blink.
    pub(crate) fn once(duration_ms: u64) -> (script: BlinkScript)
        ensures
            script@ == blink_once_actions(duration_ms),
    {
        let script = BlinkScript {
            on_ms: duration_ms,
            off_ms: duration_ms,
            phase: Phase::SwitchOn,
            remaining: 3,
        };
        assert(script@ =~= blink_once_actions(duration_ms));
        script
    }

    /// The script of `count` rounds of blink and pause.
    pub(crate) fn rounds(count: u32, duration_ms: u64) -> (script: BlinkScript)
        ensures
            script@ == blink_multiple_actions(count as nat, duration_ms),
    {
        proof {
            lemma_blink_multiple_is_cycle(count as nat, duration_ms);
        }
        BlinkScript {
            on_ms: duration_ms,
            off_ms: duration_ms,
            phase: Phase::SwitchOn,
            remaining: 4 * (count as u64),
        }
    }

    /// How many actions are left.
    pub fn remaining(&self) -> (n: u64)
        ensures
            n == self@.len(),
    {
        self.remaining
    }

    /// Hands out the next action, or `None` once the script is used up.
    pub fn step(&mut self) -> (action: Option<Action>)
        ensures
            old(self)@.len() == 0 ==> action is None && final(self)@ == old(self)@,
            old(self)@.len() > 0 ==> action == Some(old(self)@[0]) && final(self)@ == old(
                self,
            )@.drop_first(),
    {
        if self.remaining == 0 {
            return None;
        }
        let action = self.phase.action(self.on_ms, self.off_ms);
        self.phase = self.phase.next();
        self.remaining = self.remaining - 1;
        assert(self@ =~= old(self)@.drop_first());
        Some(action)
    }
}

} // verus!
