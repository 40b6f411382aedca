use sleeplight::battery::{BatteryStatus, ChargeState, Level};

#[test]
fn status_codes_follow_the_pin_levels() {
    assert_eq!(u8::from(BatteryStatus::new(Level::High, Level::High)), 1);
    assert_eq!(u8::from(BatteryStatus::new(Level::High, Level::Low)), 2);
    assert_eq!(u8::from(BatteryStatus::new(Level::Low, Level::High)), 3);
    assert_eq!(u8::from(BatteryStatus::new(Level::Low, Level::Low)), 4);
}

#[test]
fn charge_states_follow_the_pin_levels() {
    assert_eq!(BatteryStatus::new(Level::High, Level::High).charge_state(), ChargeState::ShutdownOrStandby);
    assert_eq!(BatteryStatus::new(Level::High, Level::Low).charge_state(), ChargeState::ChargeComplete);
    assert_eq!(BatteryStatus::new(Level::Low, Level::High).charge_state(), ChargeState::Charging);
    assert_eq!(BatteryStatus::new(Level::Low, Level::Low).charge_state(), ChargeState::Fault);
}

#[test]
fn charge_state_messages() {
    assert_eq!(ChargeState::ShutdownOrStandby.message(), "shutdown/standby");
    assert_eq!(ChargeState::ChargeComplete.message(), "charge complete");
    assert_eq!(ChargeState::Charging.message(), "preconditioning/fast charge");
    assert_eq!(ChargeState::Fault.message(), "temp/timer fault");
}
