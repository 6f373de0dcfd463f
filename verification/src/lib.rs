//! Hardware-independent core of an LED blinker.
//!
//! The crate decides *what* happens to an output line and *when*; it never
//! touches a register, a timer or an executor. Every operation that needs the
//! outside world is expressed as a sequence of [`Action`]s for a driver to
//! carry out.

pub mod action;
pub mod controller;
pub mod pin;
pub mod script;
pub mod spawn;
pub mod task;

pub use action::{Action, Phase};
pub use controller::LedController;
pub use pin::{Level, OutputPin};
pub use script::BlinkScript;
pub use task::{
    led_blink_task, led_blink_task_advanced, led_blink_task_custom, BlinkTask, DEFAULT_INTERVAL_MS,
};
pub use spawn::{
    spawn_led_blink_task, spawn_led_blink_task_advanced, spawn_led_blink_task_custom,
    spawn_result, SpawnError,
};
