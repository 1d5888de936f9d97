use servo_by_light::action::{Action, Message};
use servo_by_light::lamp::{led_for, on_reading, startup};
use servo_by_light::veml7700::RegisterWrite;

#[test]
fn sets_up_the_sensor_before_it_reports() {
    assert_eq!(
        startup(),
        [
            Action::WriteSensor(RegisterWrite { register: 0, low: 0x00, high: 0x10 }),
            Action::WriteSensor(RegisterWrite { register: 1, low: 0, high: 0 }),
            Action::WriteSensor(RegisterWrite { register: 2, low: 0, high: 0 }),
            Action::WriteSensor(RegisterWrite { register: 3, low: 0, high: 0 }),
            Action::AwaitHost,
            Action::Say(Message::Ready),
        ]
    );
}

#[test]
fn led_shows_the_last_reading() {
    let mut led = Action::Led { high: false };
    for raw in [500u16, 3, 84, 85] {
        led = on_reading(raw.to_le_bytes()).led;
    }
    assert_eq!(led, Action::Led { high: false });
    assert_eq!(on_reading(84u16.to_le_bytes()).lux, 39);
    assert_eq!(on_reading(83u16.to_le_bytes()).led, Action::Led { high: true });
}

#[test]
fn led_is_on_below_thirty_nine_lux() {
    assert_eq!(led_for(0), Action::Led { high: true });
    assert_eq!(led_for(38), Action::Led { high: true });
    assert_eq!(led_for(39), Action::Led { high: false });
    assert_eq!(led_for(u32::MAX), Action::Led { high: false });
}

#[test]
fn reading_is_logged_and_shown() {
    let report = on_reading([20, 0]);
    assert_eq!(report.lux, 9);
    assert_eq!(report.line.as_str(), "Lux: 9\r\n");
    assert_eq!(report.led, Action::Led { high: true });

    let report = on_reading([0, 1]);
    assert_eq!(report.lux, 118);
    assert_eq!(report.line.as_str(), "Lux: 118\r\n");
    assert_eq!(report.led, Action::Led { high: false });
}
