//! Manual control of one LED.

use vstd::prelude::*;
use crate::action::level_after;
use crate::pin::{Level, OutputPin};
use crate::script::{
    blink_multiple_actions, blink_once_actions, lemma_blink_multiple_rounds,
    lemma_blink_once_ends_low, BlinkScript,
};

verus! {

/// Owns one output line and switches the LED on it.
///
/// The view is the level the line is driven to.
#[derive(Debug)]
pub struct LedController {
    led: OutputPin,
}

impl View for LedController {
    type V = Level;

    closed spec fn view(&self) -> Level {
        self.led.level
    }
}

impl LedController {
    /// Takes the line over, at the level it has.
    pub fn new(led: OutputPin) -> (controller: LedController)
        ensures
            controller@ == led.level,
    {
        LedController { led }
    }

    /// The level the line is driven to.
    pub fn level(&self) -> (level: Level)
        ensures
            level == self@,
    {
        self.led.level
    }

    /// Switches the LED on, whatever it was.
    pub fn turn_on(&mut self)
        ensures
            final(self)@ == Level::High,
    {
        self.led.set_high();
    }

    /// Switches the LED off, whatever it was.
    pub fn turn_off(&mut self)
        ensures
            final(self)@ == Level::Low,
    {
        self.led.set_low();
    }

    /// Switches the LED to the level it does not have.
    pub fn toggle(&mut self)
        ensures
            final(self)@ == old(self)@.inverted(),
    {
        if self.led.is_set_high() {
            self.led.set_low();
        } else {
            self.led.set_high();
        }
    }

    /// One blink: on, hold for `duration_ms`, off.
    ///
    /// Returns the actions for the driver to carry out, in order. The
    /// controller already stands where the line will be once the driver is
    /// through: low.
    pub fn blink_once(&mut self, duration_ms: u64) -> (script: BlinkScript)
        ensures
            script@ == blink_once_actions(duration_ms),
            final(self)@ == level_after(old(self)@, script@),
            final(self)@ == Level::Low,
    {
        proof {
            lemma_blink_once_ends_low(duration_ms, self@);
        }
        self.turn_on();
        self.turn_off();
        BlinkScript::once(duration_ms)
    }

    /// `count` blinks of `duration_ms`, each followed by a pause of the same
    /// length.
    ///
    /// Returns the actions for the driver to carry out, in order. The
    /// controller already stands where the line will be once the driver is
    /// through: low, or untouched if `count` is zero, in which case the script
    /// is empty.
    pub fn blink_multiple(&mut self, count: u32, duration_ms: u64) -> (script: BlinkScript)
        ensures
            script@ == blink_multiple_actions(count as nat, duration_ms),
            final(self)@ == level_after(old(self)@, script@),
            final(self)@ == (if count == 0 {
                old(self)@
            } else {
                Level::Low
            }),
    {
        proof {
            lemma_blink_multiple_rounds(count as nat, duration_ms, self@);
        }
        if count > 0 {
            self.turn_on();
            self.turn_off();
        }
        BlinkScript::rounds(count, duration_ms)
    }
}

/// Toggling twice brings back the level the LED started with.
pub proof fn lemma_toggle_twice_restores(level: Level)
    ensures
        level.inverted().inverted() == level,
{
}

} // verus!
