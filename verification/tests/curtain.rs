use servo_by_light::action::{make_reading, Action, Message};
use servo_by_light::curtain::{startup, CurtainState};
use servo_by_light::servo::PwmConfig;
use servo_by_light::veml7700::RegisterWrite;

const CLOSING: [Action; 9] = [
    Action::Say(Message::Closing),
    Action::Led { high: true },
    Action::Duty(1000),
    Action::Serve { rounds: 500, interval_ms: 10 },
    Action::Duty(1500),
    Action::Pause { ms: 200 },
    Action::Duty(0),
    Action::Say(Message::Closed),
    Action::Serve { rounds: 500, interval_ms: 10 },
];

const OPENING: [Action; 9] = [
    Action::Say(Message::Opening),
    Action::Led { high: false },
    Action::Duty(2000),
    Action::Serve { rounds: 500, interval_ms: 10 },
    Action::Duty(1500),
    Action::Pause { ms: 200 },
    Action::Duty(0),
    Action::Say(Message::Opened),
    Action::Serve { rounds: 500, interval_ms: 10 },
];

#[test]
fn sets_up_the_sensor_and_the_servo_before_it_reports() {
    assert_eq!(
        startup(),
        [
            Action::WriteSensor(RegisterWrite { register: 0, low: 0x00, high: 0x10 }),
            Action::WriteSensor(RegisterWrite { register: 1, low: 0, high: 0 }),
            Action::WriteSensor(RegisterWrite { register: 2, low: 0, high: 0 }),
            Action::WriteSensor(RegisterWrite { register: 3, low: 0, high: 0 }),
            Action::AwaitHost,
            Action::StartPwm(PwmConfig {
                phase_correct: false,
                div_int: 125,
                div_frac: 0,
                top: 19_999,
            }),
            Action::Say(Message::Ready),
        ]
    );
}

#[test]
fn starts_opened() {
    assert_eq!(CurtainState::initial(), CurtainState::Opened);
}

#[test]
fn messages() {
    assert_eq!(Message::Ready.text(), "VEML7700 Light Sensor ready\r\n");
    assert_eq!(Message::Closing.text(), "Closing curtain...\r\n");
    assert_eq!(Message::Closed.text(), "Curtain closed.\r\n");
    assert_eq!(Message::Opening.text(), "Opening curtain...\r\n");
    assert_eq!(Message::Opened.text(), "Curtain opened.\r\n");
}

#[test]
fn reads_the_sensor_after_a_second() {
    assert_eq!(
        make_reading(),
        [
            Action::Serve { rounds: 100, interval_ms: 10 },
            Action::Pause { ms: 40 },
            Action::ReadLight,
        ]
    );
}

#[test]
fn closes_below_nine_lux() {
    let mut state = CurtainState::Opened;
    assert_eq!(state.react(9), None);
    assert_eq!(state, CurtainState::Opened);
    assert_eq!(state.react(8), Some(CLOSING));
    assert_eq!(state, CurtainState::Closed);
    assert_eq!(state.react(0), None);
    assert_eq!(state, CurtainState::Closed);
}

#[test]
fn opens_above_nineteen_lux() {
    let mut state = CurtainState::Closed;
    assert_eq!(state.react(19), None);
    assert_eq!(state, CurtainState::Closed);
    assert_eq!(state.react(20), Some(OPENING));
    assert_eq!(state, CurtainState::Opened);
    assert_eq!(state.react(u32::MAX), None);
    assert_eq!(state, CurtainState::Opened);
}

#[test]
fn band_keeps_the_state() {
    for start in [CurtainState::Opened, CurtainState::Closed] {
        let mut state = start;
        for lux in 9..=19 {
            assert_eq!(state.react(lux), None);
            assert_eq!(state, start);
        }
    }
}

#[test]
fn last_decisive_reading_decides() {
    let mut state = CurtainState::initial();
    for lux in [30, 5, 12, 25, 3, 19, 9] {
        state.react(lux);
    }
    assert_eq!(state, CurtainState::Closed);
}

#[test]
fn moves_at_most_once_within_eleven_lux() {
    for start in [CurtainState::Opened, CurtainState::Closed] {
        for low in 0..30 {
            let mut state = start;
            let mut moves = 0;
            for lux in [low, low + 11, low, low + 11, low] {
                if state.react(lux).is_some() {
                    moves += 1;
                }
            }
            assert!(moves <= 1);
        }
    }
}

#[test]
fn comes_to_rest_after_each_reading() {
    let mut state = CurtainState::initial();
    let (mut led, mut duty) = (false, 0);
    let (mut left_ms, mut right_ms) = (0u32, 0u32);
    for lux in [100, 8, 8, 19, 20, 0, 50, 15, 3] {
        for action in state.react(lux).into_iter().flatten() {
            let ms = match action {
                Action::Led { high } => {
                    led = high;
                    0
                }
                Action::Duty(level) => {
                    duty = level;
                    0
                }
                Action::Serve { rounds, interval_ms } => rounds as u32 * interval_ms,
                Action::Pause { ms } => ms,
                _ => 0,
            };
            match duty {
                1000 => left_ms += ms,
                2000 => right_ms += ms,
                _ => {}
            }
        }
        assert_eq!(duty, 0);
        assert_eq!(led, state == CurtainState::Closed);
        assert_eq!(left_ms, right_ms + if led { 5000 } else { 0 });
    }
    assert_eq!((left_ms, right_ms), (15000, 10000));
}

#[test]
fn no_answer_closes_an_open_curtain() {
    let mut state = CurtainState::Opened;
    assert_eq!(state.on_reading([0, 0]).steps, Some(CLOSING));
    assert_eq!(state, CurtainState::Closed);
}

#[test]
fn usb_is_never_left_alone_for_long() {
    let (mut unpolled_ms, mut longest_ms) = (0, 0);
    let mut state = CurtainState::initial();
    for lux in [100, 8, 12, 20, 0, 50] {
        let steps = state.react(lux);
        for action in make_reading().into_iter().chain(steps.into_iter().flatten()) {
            match action {
                Action::Serve { interval_ms, .. } => unpolled_ms = interval_ms,
                Action::Pause { ms } => unpolled_ms += ms,
                _ => {}
            }
            longest_ms = longest_ms.max(unpolled_ms);
        }
    }
    assert_eq!(longest_ms, 210);
}

#[test]
fn reading_is_logged_with_the_state_before_it() {
    let mut state = CurtainState::initial();
    let report = state.on_reading([10, 0]);
    assert_eq!(report.lux, 5);
    assert_eq!(report.line.as_str(), "Lux: 5 State: Opened\r\n");
    assert_eq!(report.steps, Some(CLOSING));
    assert_eq!(state, CurtainState::Closed);

    let report = state.on_reading([30, 0]);
    assert_eq!(report.lux, 14);
    assert_eq!(report.line.as_str(), "Lux: 14 State: Closed\r\n");
    assert_eq!(report.steps, None);

    let report = state.on_reading([0, 1]);
    assert_eq!(report.line.as_str(), "Lux: 118 State: Closed\r\n");
    assert_eq!(report.steps, Some(OPENING));
    assert_eq!(state, CurtainState::Opened);
}
