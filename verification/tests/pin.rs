use esp_led::{Action, Level, OutputPin, Phase};

#[test]
fn pin_keeps_the_level_it_was_made_with() {
    assert_eq!(OutputPin::new(Level::Low).level, Level::Low);
    assert_eq!(OutputPin::new(Level::High).level, Level::High);
    assert!(!OutputPin::new(Level::Low).is_set_high());
    assert!(OutputPin::new(Level::High).is_set_high());
}

#[test]
fn pin_set_high_and_set_low() {
    let mut pin = OutputPin::new(Level::Low);
    pin.set_high();
    assert!(pin.is_set_high());
    assert_eq!(pin.level, Level::High);
    pin.set_high();
    assert!(pin.is_set_high());
    pin.set_low();
    assert!(!pin.is_set_high());
    assert_eq!(pin.level, Level::Low);
    pin.set_low();
    assert_eq!(pin.level, Level::Low);
}

#[test]
fn phases_follow_each_other_in_a_ring() {
    assert_eq!(Phase::SwitchOn.next(), Phase::HoldOn);
    assert_eq!(Phase::HoldOn.next(), Phase::SwitchOff);
    assert_eq!(Phase::SwitchOff.next(), Phase::HoldOff);
    assert_eq!(Phase::HoldOff.next(), Phase::SwitchOn);
}

#[test]
fn each_phase_has_its_action() {
    assert_eq!(Phase::SwitchOn.action(200, 800), Action::Drive(Level::High));
    assert_eq!(Phase::HoldOn.action(200, 800), Action::Wait(200));
    assert_eq!(Phase::SwitchOff.action(200, 800), Action::Drive(Level::Low));
    assert_eq!(Phase::HoldOff.action(200, 800), Action::Wait(800));
}
