//! Handing a blink task to an executor.

use vstd::prelude::*;
use embassy_executor::SpawnError as Rejection;
use crate::pin::OutputPin;
use crate::task::{
    led_blink_task, led_blink_task_advanced, led_blink_task_custom, BlinkTask,
    DEFAULT_INTERVAL_MS,
};

verus! {

/// `embassy_executor::SpawnError`, the reason an embassy executor gives when
/// it turns a task down. Nothing is assumed of its values: it is only passed
/// along.
#[verifier::external_type_specification]
#[verifier::external_body]
pub struct ExRejection(Rejection);

/// Why a blink task did not start.
#[derive(Clone, Copy, Debug, PartialEq, Eq, Structural)]
pub enum SpawnError {
    /// The executor did not take the task.
    SpawnFailed,
}

impl From<Rejection> for SpawnError {
    fn from(_rejection: Rejection) -> (error: SpawnError) {
        SpawnError::SpawnFailed
    }
}

impl vstd::std_specs::convert::FromSpecImpl<Rejection> for SpawnError {
    open spec fn obeys_from_spec() -> bool {
        true
    }

    open spec fn from_spec(_rejection: Rejection) -> SpawnError {
        SpawnError::SpawnFailed
    }
}

/// What a spawn helper answers for each answer of the executor.
pub open spec fn spec_spawn_result(outcome: Result<(), Rejection>) -> Result<
    (),
    SpawnError,
> {
    match outcome {
        Ok(_) => Ok(()),
        Err(_) => Err(SpawnError::SpawnFailed),
    }
}

/// Turns the executor's answer into this crate's: accepted stays accepted,
/// and every rejection becomes `SpawnFailed`.
#[verifier::when_used_as_spec(spec_spawn_result)]
pub fn spawn_result(outcome: Result<(), Rejection>) -> (result: Result<
    (),
    SpawnError,
>)
    ensures
        result == spec_spawn_result(outcome),
        result is Ok <==> outcome is Ok,
        result is Err ==> result == Err::<(), SpawnError>(SpawnError::SpawnFailed),
{
    match outcome {
        Ok(_) => Ok(()),
        Err(rejection) => Err(SpawnError::from(rejection)),
    }
}

/// Whether `result` is what a spawn helper may answer after it has handed
/// `task` to `spawner`: what [`spawn_result`] makes of some answer that
/// `spawner` can give for that task.
pub open spec fn spawned<S: FnOnce(BlinkTask) -> Result<(), Rejection>>(
    spawner: S,
    task: BlinkTask,
    result: Result<(), SpawnError>,
) -> bool {
    exists|outcome: Result<(), Rejection>| #[trigger]
        call_ensures(spawner, (task,), outcome) && result == spec_spawn_result(outcome)
}

/// Hands the default blink task on `led` to `spawner`, once.
///
/// `Ok(())` if `spawner` took the task, `Err(SpawnFailed)` if it did not. The
/// line is given away either way.
pub fn spawn_led_blink_task<S>(spawner: S, led: OutputPin) -> (result: Result<(), SpawnError>)
    where S: FnOnce(BlinkTask) -> Result<(), Rejection>
    requires
        call_requires(
            spawner,
            (BlinkTask::fresh(led, DEFAULT_INTERVAL_MS, DEFAULT_INTERVAL_MS),),
        ),
    ensures
        spawned(
            spawner,
            BlinkTask::fresh(led, DEFAULT_INTERVAL_MS, DEFAULT_INTERVAL_MS),
            result,
        ),
{
    spawn_result(spawner(led_blink_task(led)))
}

/// Hands the blink task on `led` that is on for `interval_ms` and off for as
/// long to `spawner`, once.
///
/// `Ok(())` if `spawner` took the task, `Err(SpawnFailed)` if it did not. The
/// line is given away either way.
pub fn spawn_led_blink_task_custom<S>(spawner: S, led: OutputPin, interval_ms: u64) -> (result:
    Result<(), SpawnError>)
    where S: FnOnce(BlinkTask) -> Result<(), Rejection>
    requires
        call_requires(spawner, (BlinkTask::fresh(led, interval_ms, interval_ms),)),
    ensures
        spawned(spawner, BlinkTask::fresh(led, interval_ms, interval_ms), result),
{
    spawn_result(spawner(led_blink_task_custom(led, interval_ms)))
}

/// Hands the blink task on `led` that is on for `on_duration_ms` and off for
/// `off_duration_ms` to `spawner`, once.
///
/// `Ok(())` if `spawner` took the task, `Err(SpawnFailed)` if it did not. The
/// line is given away either way.
pub fn spawn_led_blink_task_advanced<S>(
    spawner: S,
    led: OutputPin,
    on_duration_ms: u64,
    off_duration_ms: u64,
) -> (result: Result<(), SpawnError>)
    where S: FnOnce(BlinkTask) -> Result<(), Rejection>
    requires
        call_requires(spawner, (BlinkTask::fresh(led, on_duration_ms, off_duration_ms),)),
    ensures
        spawned(spawner, BlinkTask::fresh(led, on_duration_ms, off_duration_ms), result),
{
    spawn_result(spawner(led_blink_task_advanced(led, on_duration_ms, off_duration_ms)))
}

} // verus!
