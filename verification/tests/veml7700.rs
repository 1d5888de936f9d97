use servo_by_light::veml7700::{
    light_reply, light_request, veml7700_init, veml7700_read_lux, VEML7700_ADDR,
};

#[test]
fn setup_writes() {
    assert_eq!(VEML7700_ADDR, 0x10);
    assert_eq!(
        veml7700_init().map(|write| write.bytes()),
        [[0x00, 0x00, 0x10], [0x01, 0x00, 0x00], [0x02, 0x00, 0x00], [0x03, 0x00, 0x00]]
    );
}

#[test]
fn light_request_names_the_register() {
    assert_eq!(light_request(), [0x04]);
}

#[test]
fn no_answer_is_dark() {
    assert_eq!(light_reply(), [0, 0]);
    assert_eq!(veml7700_read_lux(light_reply()), 0);
}

#[test]
fn lux_values() {
    assert_eq!(veml7700_read_lux([0, 0]), 0);
    assert_eq!(veml7700_read_lux([1, 0]), 0);
    assert_eq!(veml7700_read_lux([2, 0]), 1);
    assert_eq!(veml7700_read_lux([100, 0]), 46);
    assert_eq!(veml7700_read_lux([0, 1]), 118);
    assert_eq!(veml7700_read_lux([0xff, 0xff]), 30199);
}

#[test]
fn low_byte_comes_first() {
    assert_eq!(veml7700_read_lux([0x10, 0x27]), 4608);
    assert_eq!(veml7700_read_lux([0x27, 0x10]), 1905);
}

#[test]
fn lux_is_the_nearest_integer_and_grows_with_the_count() {
    let mut last = 0;
    for raw in 0..=u16::MAX {
        let lux = veml7700_read_lux(raw.to_le_bytes());
        assert_eq!(lux, (raw as f64 * 0.4608).round() as u32);
        assert!(last <= lux);
        last = lux;
    }
}
