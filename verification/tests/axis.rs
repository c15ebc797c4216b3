use pico_rw_mock::axis::Axis;

#[test]
fn both_pins_high_select_x() {
    assert_eq!(Axis::from_id_pins(true, true), Some(Axis::X));
}

#[test]
fn first_pin_low_selects_y() {
    assert_eq!(Axis::from_id_pins(false, true), Some(Axis::Y));
}

#[test]
fn second_pin_low_selects_z() {
    assert_eq!(Axis::from_id_pins(true, false), Some(Axis::Z));
}

#[test]
fn both_pins_low_select_nothing() {
    assert_eq!(Axis::from_id_pins(false, false), None);
}

#[test]
fn serial_numbers_name_the_axis() {
    assert_eq!(Axis::X.serial_number(), "RW-X");
    assert_eq!(Axis::Y.serial_number(), "RW-Y");
    assert_eq!(Axis::Z.serial_number(), "RW-Z");
}
