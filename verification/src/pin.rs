//! The output line as the blinker sees it: a level that is driven, and read back.

use vstd::prelude::*;

verus! {

/// Logical level of an output line.
#[derive(Clone, Copy, Debug, PartialEq, Eq, Structural)]
pub enum Level {
    Low,
    High,
}

impl Level {
    /// The opposite level.
    pub open spec fn inverted(self) -> Level {
        match self {
            Level::Low => Level::High,
            Level::High => Level::Low,
        }
    }
}

/// One output line, held by exactly one owner at a time.
///
/// The value records the level the line is driven to. It is neither `Clone`
/// nor `Copy`: handing it to a task or a controller gives the line away.
#[derive(Debug, PartialEq, Eq)]
pub struct OutputPin {
    pub level: Level,
}

impl OutputPin {
    /// A line that is driven to `level`.
    pub fn new(level: Level) -> (pin: OutputPin)
        ensures
            pin.level == level,
    {
        OutputPin { level }
    }

    /// Drives the line high.
    pub fn set_high(&mut self)
        ensures
            final(self).level == Level::High,
    {
        self.level = Level::High;
    }

    /// Drives the line low.
    pub fn set_low(&mut self)
        ensures
            final(self).level == Level::Low,
    {
        self.level = Level::Low;
    }

    /// Whether the line is driven high.
    pub fn is_set_high(&self) -> (high: bool)
        ensures
            high == (self.level == Level::High),
    {
        self.level == Level::High
    }
}

} // verus!
