use key_lib::position::{
    DefaultSwitch, DigitalPosition, HeSwitch, KeyState, SlavePosition, WootingPosition,
};

#[test]
fn default_switch_follows_its_contact() {
    let mut switch = DefaultSwitch::default_state();
    assert!(!switch.is_pressed());
    assert!(!switch.is_analog());
    switch.update_buf(true);
    assert!(switch.is_pressed());
    assert!(switch.get_buf());
    assert!(switch.setup(false));
    switch.calibrate(false);
    assert!(switch.is_pressed());
    switch.update_buf(false);
    assert!(!switch.is_pressed());
    switch.update_buf(true);
    switch.reset();
    assert!(!switch.is_pressed());
}

#[test]
fn digital_presses_at_actuation_and_releases_above_release() {
    // Before calibration the travel is 1400..1700: actuation 1595, release 1610.
    let mut switch = DigitalPosition::default_state();
    assert!(switch.is_analog());
    switch.update_buf(1700);
    assert!(!switch.is_pressed());
    switch.update_buf(1650);
    assert!(!switch.is_pressed());
    switch.update_buf(1596);
    assert!(!switch.is_pressed());
    switch.update_buf(1595);
    assert!(switch.is_pressed());
    switch.update_buf(1600);
    assert!(switch.is_pressed());
    switch.update_buf(1610);
    assert!(switch.is_pressed());
    switch.update_buf(1611);
    assert!(!switch.is_pressed());
    switch.update_buf(1600);
    assert!(!switch.is_pressed());
    assert_eq!(switch.get_buf(), 1600);
}

#[test]
fn digital_decreasing_samples_press_once_and_stay() {
    let mut switch = DigitalPosition::default_state();
    let samples = [1690u16, 1660, 1630, 1600, 1590, 1560, 1500, 1450];
    let mut pressed_at = None;
    for (i, sample) in samples.iter().enumerate() {
        switch.update_buf(*sample);
        if switch.is_pressed() && pressed_at.is_none() {
            pressed_at = Some(i);
        }
        if let Some(first) = pressed_at {
            assert!(i < first || switch.is_pressed());
        }
    }
    assert_eq!(pressed_at, Some(4));
}

#[test]
fn digital_recalibrates_on_a_new_extreme() {
    let mut switch = DigitalPosition::default_state();
    // A reading of 1000 widens the travel to 1000..1700: release 1490, actuation 1455.
    switch.update_buf(1000);
    assert!(switch.is_pressed());
    switch.update_buf(1490);
    assert!(switch.is_pressed());
    switch.update_buf(1491);
    assert!(!switch.is_pressed());
    switch.update_buf(1456);
    assert!(!switch.is_pressed());
    switch.update_buf(1455);
    assert!(switch.is_pressed());
    // A reading of 2000 widens it to 1000..2000: release 1700, actuation 1650.
    switch.update_buf(2000);
    assert!(!switch.is_pressed());
    switch.update_buf(1651);
    assert!(!switch.is_pressed());
    switch.update_buf(1650);
    assert!(switch.is_pressed());
    switch.update_buf(1700);
    assert!(switch.is_pressed());
    switch.update_buf(1701);
    assert!(!switch.is_pressed());
}

#[test]
fn digital_reset_keeps_the_calibration() {
    let mut switch = DigitalPosition::default_state();
    switch.update_buf(1000);
    assert!(switch.is_pressed());
    switch.reset();
    assert!(!switch.is_pressed());
    assert_eq!(switch.get_buf(), 1700);
    // Still the thresholds of 1000..1700.
    switch.update_buf(1480);
    assert!(!switch.is_pressed());
    switch.update_buf(1455);
    assert!(switch.is_pressed());
}

#[test]
fn digital_setup_collects_one_reading_then_calibrates() {
    let mut switch = DigitalPosition::default_state();
    assert!(!switch.setup(1800));
    assert_eq!(switch.get_buf(), 1800);
    assert!(switch.setup(1234));
    // The average 1800 became the highest point: travel 1400..1800,
    // release 1680, actuation 1660.
    switch.update_buf(1661);
    assert!(!switch.is_pressed());
    switch.update_buf(1660);
    assert!(switch.is_pressed());
    switch.update_buf(1680);
    assert!(switch.is_pressed());
    switch.update_buf(1681);
    assert!(!switch.is_pressed());
}

#[test]
fn digital_calibrate_widens_only() {
    let mut switch = DigitalPosition::default_state();
    switch.calibrate(1500);
    switch.update_buf(1596);
    assert!(!switch.is_pressed());
    switch.update_buf(1595);
    assert!(switch.is_pressed());
    switch.calibrate(1300);
    // Travel 1300..1700: release 1580, actuation 1560.
    switch.update_buf(1581);
    assert!(!switch.is_pressed());
    switch.update_buf(1561);
    assert!(!switch.is_pressed());
    switch.update_buf(1560);
    assert!(switch.is_pressed());
}

#[test]
fn wooting_presses_when_it_passes_the_actuation_point() {
    let mut switch = WootingPosition::default_state();
    assert!(switch.is_analog());
    switch.update_buf(1650);
    assert!(!switch.is_pressed());
    switch.update_buf(1625);
    assert!(!switch.is_pressed());
    switch.update_buf(1600);
    assert!(!switch.is_pressed());
    switch.update_buf(1595);
    assert!(switch.is_pressed());
    assert_eq!(switch.get_buf(), 1595);
}

#[test]
fn wooting_presses_on_a_fall_of_more_than_the_tolerance() {
    let mut switch = WootingPosition::default_state();
    switch.update_buf(1650);
    assert!(!switch.is_pressed());
    // The tolerance is 30: 1650 - 31 is a fall that counts, above the
    // actuation point 1595 though it ends. 1619 lies above the release
    // point 1610, which releases first.
    switch.update_buf(1619);
    assert!(!switch.is_pressed());
    switch.update_buf(1610);
    assert!(!switch.is_pressed());
    switch.update_buf(1600);
    assert!(!switch.is_pressed());
    switch.update_buf(1579);
    assert!(switch.is_pressed());
}

#[test]
fn wooting_repress_after_partial_release() {
    let mut switch = WootingPosition::default_state();
    switch.update_buf(1650);
    switch.update_buf(1500);
    assert!(switch.is_pressed());
    // A rise within the tolerance changes nothing.
    switch.update_buf(1530);
    assert!(switch.is_pressed());
    // A rise of more than the tolerance releases, below the release point.
    switch.update_buf(1531);
    assert!(!switch.is_pressed());
    // A fall within the tolerance changes nothing.
    switch.update_buf(1501);
    assert!(!switch.is_pressed());
    // A fall of more than the tolerance presses again, far from the lowest
    // point 1400.
    switch.update_buf(1500);
    assert!(switch.is_pressed());
}

#[test]
fn wooting_below_the_lowest_point_presses_and_recalibrates() {
    let mut switch = WootingPosition::default_state();
    switch.update_buf(1650);
    switch.update_buf(1000);
    assert!(switch.is_pressed());
    // Travel 1000..1700: release 1490, actuation 1455, tolerance 70.
    switch.update_buf(1070);
    assert!(switch.is_pressed());
    switch.update_buf(1071);
    assert!(!switch.is_pressed());
    switch.update_buf(1001);
    assert!(!switch.is_pressed());
    switch.update_buf(1000);
    assert!(switch.is_pressed());
    switch.update_buf(1491);
    assert!(!switch.is_pressed());
}

#[test]
fn wooting_reset_releases() {
    let mut switch = WootingPosition::default_state();
    switch.update_buf(1650);
    switch.update_buf(1500);
    assert!(switch.is_pressed());
    switch.reset();
    assert!(!switch.is_pressed());
    assert_eq!(switch.get_buf(), 1700);
    assert!(switch.setup(5));
}

#[test]
fn wooting_first_reading_within_the_travel() {
    // Nothing was seen yet, so the last position is 0: neither a fall nor
    // the actuation point is reached by 1600, and a rise is.
    let mut switch = WootingPosition::default_state();
    switch.update_buf(1600);
    assert!(!switch.is_pressed());
    let mut switch = WootingPosition::default_state();
    switch.update_buf(1590);
    assert!(switch.is_pressed());
}

#[test]
fn slave_position_takes_state_and_reading_apart() {
    let mut switch = SlavePosition::default_state();
    assert!(!switch.is_pressed());
    assert_eq!(switch.get_buf(), u16::MAX);
    switch.update_buf(1);
    assert!(switch.is_pressed());
    assert_eq!(switch.get_buf(), u16::MAX);
    switch.update_buf(1234);
    assert!(switch.is_pressed());
    assert_eq!(switch.get_buf(), 1234);
    switch.update_buf(0);
    assert!(!switch.is_pressed());
    assert!(switch.setup(9));
    assert!(switch.is_analog());
    switch.update_buf(1);
    switch.reset();
    assert!(!switch.is_pressed());
    assert_eq!(switch.get_buf(), u16::MAX);
}

#[test]
fn he_switch_dispatches() {
    let mut wooting = HeSwitch::default_state();
    assert!(matches!(wooting, HeSwitch::Wooting(_)));
    wooting.update_buf(1650);
    wooting.update_buf(1619);
    wooting.update_buf(1579);
    assert!(wooting.is_pressed());

    let mut digital = HeSwitch::Digital(DigitalPosition::default_state());
    digital.update_buf(1650);
    digital.update_buf(1600);
    assert!(!digital.is_pressed());
    digital.update_buf(1595);
    assert!(digital.is_pressed());
    digital.reset();
    assert!(!digital.is_pressed());
    assert_eq!(digital.get_buf(), 1700);

    let mut slave = HeSwitch::Slave(SlavePosition::default_state());
    slave.update_buf(1);
    assert!(slave.is_pressed());
    assert!(slave.setup(0));
    assert!(slave.is_analog());
    slave.calibrate(7);
    assert!(slave.is_pressed());
}
