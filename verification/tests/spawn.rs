use esp_led::{
    spawn_led_blink_task, spawn_led_blink_task_advanced, spawn_led_blink_task_custom,
    spawn_result, Action, BlinkTask, Level, OutputPin, Phase, SpawnError,
};

fn fresh(level: Level, on_ms: u64, off_ms: u64) -> BlinkTask {
    BlinkTask { led: OutputPin::new(level), on_ms, off_ms, phase: Phase::SwitchOn }
}

#[test]
fn executor_rejection_becomes_spawn_failed() {
    assert_eq!(SpawnError::from(embassy_executor::SpawnError::Busy), SpawnError::SpawnFailed);
    let converted: SpawnError = embassy_executor::SpawnError::Busy.into();
    assert_eq!(converted, SpawnError::SpawnFailed);
}

#[test]
fn spawn_result_keeps_ok_and_maps_every_err() {
    assert_eq!(spawn_result(Ok(())), Ok(()));
    assert_eq!(
        spawn_result(Err(embassy_executor::SpawnError::Busy)),
        Err(SpawnError::SpawnFailed)
    );
}

#[test]
fn spawn_default_accepted() {
    let mut got = None;
    let result = spawn_led_blink_task(
        |task| {
            got = Some(task);
            Ok(())
        },
        OutputPin::new(Level::Low),
    );
    assert_eq!(result, Ok(()));
    assert_eq!(got, Some(fresh(Level::Low, 500, 500)));
}

#[test]
fn spawn_default_rejected() {
    let mut asked = 0;
    let result = spawn_led_blink_task(
        |_task| {
            asked += 1;
            Err(embassy_executor::SpawnError::Busy)
        },
        OutputPin::new(Level::Low),
    );
    assert_eq!(result, Err(SpawnError::SpawnFailed));
    assert_eq!(asked, 1);
}

#[test]
fn spawn_custom_accepted() {
    let mut got = None;
    let result = spawn_led_blink_task_custom(
        |task| {
            got = Some(task);
            Ok(())
        },
        OutputPin::new(Level::High),
        1000,
    );
    assert_eq!(result, Ok(()));
    assert_eq!(got, Some(fresh(Level::High, 1000, 1000)));
}

#[test]
fn spawn_custom_rejected() {
    let result = spawn_led_blink_task_custom(
        |_task| Err(embassy_executor::SpawnError::Busy),
        OutputPin::new(Level::Low),
        1000,
    );
    assert_eq!(result, Err(SpawnError::SpawnFailed));
}

#[test]
fn spawn_advanced_accepted() {
    let mut got = None;
    let result = spawn_led_blink_task_advanced(
        |task| {
            got = Some(task);
            Ok(())
        },
        OutputPin::new(Level::Low),
        200,
        800,
    );
    assert_eq!(result, Ok(()));
    assert_eq!(got, Some(fresh(Level::Low, 200, 800)));
}

#[test]
fn spawn_advanced_rejected() {
    let result = spawn_led_blink_task_advanced(
        |_task| Err(embassy_executor::SpawnError::Busy),
        OutputPin::new(Level::Low),
        200,
        800,
    );
    assert_eq!(result, Err(SpawnError::SpawnFailed));
}

#[test]
fn spawn_with_zero_delay_is_legal() {
    let mut got = None;
    let result = spawn_led_blink_task_custom(
        |task| {
            got = Some(task);
            Ok(())
        },
        OutputPin::new(Level::Low),
        0,
    );
    assert_eq!(result, Ok(()));
    let mut task = got.unwrap();
    assert_eq!(task.step(), Action::Drive(Level::High));
    assert_eq!(task.step(), Action::Wait(0));
    assert_eq!(task.step(), Action::Drive(Level::Low));
    assert_eq!(task.step(), Action::Wait(0));
}

#[test]
fn spawned_task_runs_on_after_it_was_accepted() {
    let mut slot: Vec<BlinkTask> = Vec::new();
    let result = spawn_led_blink_task_advanced(
        |task| {
            slot.push(task);
            Ok(())
        },
        OutputPin::new(Level::Low),
        5,
        7,
    );
    assert_eq!(result, Ok(()));
    let mut task = slot.pop().unwrap();
    let mut waits = Vec::new();
    for _ in 0..12 {
        if let Action::Wait(ms) = task.step() {
            waits.push(ms);
        }
    }
    assert_eq!(waits, vec![5, 7, 5, 7, 5, 7]);
}

#[test]
fn a_spawner_with_one_slot_takes_the_first_task_only() {
    let mut slot: Option<BlinkTask> = None;
    let first = spawn_led_blink_task(
        |task| {
            if slot.is_none() {
                slot = Some(task);
                Ok(())
            } else {
                Err(embassy_executor::SpawnError::Busy)
            }
        },
        OutputPin::new(Level::Low),
    );
    let second = spawn_led_blink_task(
        |task| {
            if slot.is_none() {
                slot = Some(task);
                Ok(())
            } else {
                Err(embassy_executor::SpawnError::Busy)
            }
        },
        OutputPin::new(Level::Low),
    );
    assert_eq!(first, Ok(()));
    assert_eq!(second, Err(SpawnError::SpawnFailed));
}
