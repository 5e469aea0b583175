use rusty_rover::{actuate, duty_for, ActuatorCommand, ChannelOutput};

#[test]
fn command_100_minus_50_drives_right_forward_left_reverse() {
    let max_duty: u16 = 8000;
    let out = actuate(ActuatorCommand { right: 100, left: -50 }, max_duty);
    assert_eq!(out.right, ChannelOutput { forward: true, duty: (8000u32 * 100 / 127) as u16 });
    assert_eq!(out.left, ChannelOutput { forward: false, duty: (8000u32 * 50 / 127) as u16 });
    assert_eq!(out.right.duty, 6299);
    assert_eq!(out.left.duty, 3149);
}

#[test]
fn zero_command_is_forward_and_idle() {
    let out = actuate(ActuatorCommand { right: 0, left: 0 }, 1000);
    assert!(out.right.forward);
    assert!(out.left.forward);
    assert_eq!(out.right.duty, 0);
    assert_eq!(out.left.duty, 0);
}

#[test]
fn full_commands_give_full_duty() {
    let out = actuate(ActuatorCommand { right: 127, left: -127 }, 1000);
    assert_eq!(out.right, ChannelOutput { forward: true, duty: 1000 });
    assert_eq!(out.left, ChannelOutput { forward: false, duty: 1000 });
}

#[test]
fn most_negative_command_is_held_to_full_duty() {
    assert_eq!(duty_for(1000, -128), 1000);
    assert_eq!(duty_for(u16::MAX, -128), u16::MAX);
}

#[test]
fn duty_is_floor_of_scaled_magnitude_for_every_command() {
    for max_duty in [0u16, 1, 127, 1000, 8000, u16::MAX] {
        for c in -127i8..=127 {
            let d = duty_for(max_duty, c);
            let expected = (max_duty as u32) * (c as i32).unsigned_abs() / 127;
            assert_eq!(d as u32, expected);
            assert!(d <= max_duty);
            let out = actuate(ActuatorCommand { right: c, left: c }, max_duty);
            assert_eq!(out.right.forward, c >= 0);
            assert_eq!(out.left.duty, d);
        }
    }
}
