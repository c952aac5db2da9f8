use motor_control::{ServoBuilder, ServoConfig, SpeedMode};

#[test]
fn sg90_settings() {
    let c = ServoConfig::sg90(SpeedMode::LowSpeed);
    assert_eq!(c.max_angle, 180);
    assert_eq!(c.resolution_bits, 10);
    assert_eq!(c.frequency_hz, 50);
    assert_eq!(c.speed_mode, SpeedMode::LowSpeed);
    let _builder = ServoBuilder {};
}

#[test]
fn angle_and_duty_convert_with_floor() {
    let c = ServoConfig::sg90(SpeedMode::HighSpeed);
    assert_eq!(c.angle_for_duty(512, 1023), 90);
    assert_eq!(c.angle_for_duty(1023, 1023), 180);
    assert_eq!(c.angle_for_duty(0, 1023), 0);
    assert_eq!(c.duty_for_angle(90, 1023), 511);
    assert_eq!(c.duty_for_angle(180, 1023), 1023);
    assert_eq!(c.duty_for_angle(7, 1023), 39);
}
