use servo_by_light::curtain::CurtainState;
use servo_by_light::line::{lux_line, status_line};

#[test]
fn lux_lines() {
    assert_eq!(lux_line(0).as_str(), "Lux: 0\r\n");
    assert_eq!(lux_line(39).as_str(), "Lux: 39\r\n");
    assert_eq!(lux_line(1000).as_str(), "Lux: 1000\r\n");
    assert_eq!(lux_line(30199).as_str(), "Lux: 30199\r\n");
}

#[test]
fn status_lines() {
    assert_eq!(status_line(8, &CurtainState::Opened).as_str(), "Lux: 8 State: Opened\r\n");
    assert_eq!(status_line(120, &CurtainState::Closed).as_str(), "Lux: 120 State: Closed\r\n");
}

#[test]
fn longest_lines_are_not_cut_off() {
    assert_eq!(lux_line(u32::MAX).as_str(), "Lux: 4294967295\r\n");
    assert_eq!(
        status_line(u32::MAX, &CurtainState::Closed).as_str(),
        "Lux: 4294967295 State: Closed\r\n"
    );
}

#[test]
fn numbers_read_back() {
    for lux in [0, 7, 10, 99, 100, 12345, 30199, u32::MAX] {
        let line = lux_line(lux);
        let digits = line.as_str().trim_start_matches("Lux: ").trim_end();
        assert_eq!(digits.parse::<u32>(), Ok(lux));
    }
}

#[test]
fn state_names() {
    assert_eq!(CurtainState::Opened.as_str(), "Opened");
    assert_eq!(CurtainState::Closed.as_str(), "Closed");
}
