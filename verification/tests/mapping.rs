use pico_rw_mock::speed::{DriveCommand, MotorSpeed, FULL_DUTY, FULL_SPEED, MIN_DUTY};

fn map(raw: i16) -> DriveCommand {
    MotorSpeed { speed_normalized: raw }.to_duty_and_direction()
}

#[test]
fn zero_speed_is_stopped() {
    let cmd = map(0);
    assert_eq!(cmd.duty, 0);
    assert!(cmd.forward);
}

#[test]
fn full_forward_is_full_duty() {
    assert_eq!(map(32767), DriveCommand { duty: 100, forward: true });
    assert_eq!(map(FULL_SPEED), DriveCommand { duty: FULL_DUTY, forward: true });
}

#[test]
fn full_reverse_is_full_duty() {
    assert_eq!(map(-32767), DriveCommand { duty: 100, forward: false });
}

#[test]
fn extra_negative_value_maps_to_full_reverse() {
    assert_eq!(map(i16::MIN), DriveCommand { duty: 100, forward: false });
    assert_eq!(map(-32768), map(-32767));
}

#[test]
fn speed_16000_scales_to_48() {
    assert_eq!(map(16000), DriveCommand { duty: 48, forward: true });
    assert_eq!(map(-16000), DriveCommand { duty: 48, forward: false });
}

#[test]
fn speed_2000_is_raised_to_the_floor() {
    assert_eq!(map(2000), DriveCommand { duty: 40, forward: true });
    assert_eq!(map(2000).duty, MIN_DUTY);
}

#[test]
fn smallest_speeds_are_raised_to_the_floor() {
    assert_eq!(map(1), DriveCommand { duty: 40, forward: true });
    assert_eq!(map(-1), DriveCommand { duty: 40, forward: false });
}

#[test]
fn floor_ends_where_scaling_reaches_it() {
    // 13107 * 100 / 32767 == 40, and 13435 * 100 / 32767 == 41.
    assert_eq!(map(13106).duty, 40);
    assert_eq!(map(13107).duty, 40);
    assert_eq!(map(13434).duty, 40);
    assert_eq!(map(13435).duty, 41);
}

#[test]
fn scaling_rounds_down() {
    assert_eq!(map(32766).duty, 99);
    assert_eq!(map(-32766).duty, 99);
    assert_eq!(map(16384).duty, 50);
    assert_eq!(map(16383).duty, 49);
}

#[test]
fn nonzero_duty_stays_between_floor_and_full() {
    let mut raw: i32 = -32768;
    while raw <= 32767 {
        let cmd = map(raw as i16);
        if raw == 0 {
            assert_eq!(cmd.duty, 0);
        } else {
            assert!(cmd.duty >= 40 && cmd.duty <= 100, "speed {} gave {}", raw, cmd.duty);
        }
        raw += 1;
    }
}

#[test]
fn direction_follows_sign() {
    let mut raw: i32 = -32768;
    while raw <= 32767 {
        assert_eq!(map(raw as i16).forward, raw >= 0);
        raw += 1;
    }
}

#[test]
fn duty_never_falls_as_speed_grows() {
    let mut previous = map(1).duty;
    let mut raw: i32 = 2;
    while raw <= 32767 {
        let duty = map(raw as i16).duty;
        assert!(previous <= duty, "duty fell at speed {}", raw);
        previous = duty;
        raw += 1;
    }
}

#[test]
fn duty_ignores_the_sign() {
    let mut raw: i32 = 1;
    while raw <= 32767 {
        assert_eq!(map(raw as i16).duty, map(-raw as i16).duty);
        raw += 1;
    }
}
