use robot_remote::numeric::{i32_string, parse_i32};
use robot_remote::slider::{blink_config, frequency_config, pwm_config, Slider, SliderConfig};

fn commit_config() -> SliderConfig {
    SliderConfig {
        min: 50,
        max: 150,
        step: 5,
        default_value: 75,
        command_type: String::from("blink_rate"),
        unit: String::from("ms"),
        commit_command: Some(String::from("blink_rate_set")),
    }
}

#[test]
fn streaming_slider_scenario() {
    // slider with min=50, max=150, step=5.
    let mut s = Slider::new(blink_config());
    assert_eq!(s.value, 75);

    // unparseable input: dropped silently, no dispatch, no change.
    let r = s.on_input("abc");
    assert!(r.is_none());
    assert_eq!(s.value, 75);

    // "75" parses and is in range: one streaming command.
    let r = s.on_input("75").unwrap();
    assert_eq!(r.name, "blink_rate");
    assert_eq!(r.value, "75");
    assert_eq!(s.value, 75);
}

#[test]
fn commit_slider_scenario() {
    let mut s = Slider::new(commit_config());
    let r = s.on_input("90").unwrap();
    assert_eq!(r.name, "blink_rate");
    assert_eq!(r.value, "90");
    assert_eq!(s.value, 90);

    // the commit event emits the distinct commit command under the
    // same acceptance rule.
    let r = s.on_commit("90").unwrap();
    assert_eq!(r.name, "blink_rate_set");
    assert_eq!(r.value, "90");
}

#[test]
fn commit_rejects_like_input() {
    let mut s = Slider::new(commit_config());
    assert!(s.on_commit("abc").is_none());
    assert!(s.on_commit("10").is_none());
    assert_eq!(s.value, 75);
}

#[test]
fn streaming_only_commit_is_silent() {
    let mut s = Slider::new(blink_config());
    let r = s.on_commit("90");
    assert!(r.is_none());
    // the value still follows the acceptance rule.
    assert_eq!(s.value, 90);
}

#[test]
fn out_of_range_input_is_dropped() {
    let mut s = Slider::new(blink_config());
    assert!(s.on_input("200").is_none());
    assert!(s.on_input("49").is_none());
    assert!(s.on_input("-75").is_none());
    assert_eq!(s.value, 75);
}

#[test]
fn plus_sign_accepted() {
    let mut s = Slider::new(blink_config());
    let r = s.on_input("+80").unwrap();
    assert_eq!(r.value, "80");
    assert_eq!(s.value, 80);
}

#[test]
fn preset_configurations() {
    let b = blink_config();
    assert_eq!((b.min, b.max, b.step, b.default_value), (50, 150, 5, 75));
    assert_eq!(b.command_type, "blink_rate");
    assert_eq!(b.unit, "ms");
    assert!(b.commit_command.is_none());

    let p = pwm_config();
    assert_eq!((p.min, p.max, p.step, p.default_value), (20, 100, 5, 100));
    assert_eq!(p.command_type, "pwm_percentage");
    assert_eq!(p.unit, "%");

    let f = frequency_config();
    assert_eq!((f.min, f.max, f.step, f.default_value), (500, 48000, 500, 8000));
    assert_eq!(f.command_type, "frequency_kilohertz");
    assert_eq!(f.unit, "Hz");
}

#[test]
fn parse_accepts_plain_decimals() {
    assert_eq!(parse_i32("0"), Some(0));
    assert_eq!(parse_i32("75"), Some(75));
    assert_eq!(parse_i32("007"), Some(7));
    assert_eq!(parse_i32("-30"), Some(-30));
    assert_eq!(parse_i32("+42"), Some(42));
    assert_eq!(parse_i32("2147483647"), Some(i32::MAX));
    assert_eq!(parse_i32("-2147483648"), Some(i32::MIN));
}

#[test]
fn parse_rejects_everything_else() {
    assert_eq!(parse_i32(""), None);
    assert_eq!(parse_i32("-"), None);
    assert_eq!(parse_i32("+"), None);
    assert_eq!(parse_i32("abc"), None);
    assert_eq!(parse_i32("12a"), None);
    assert_eq!(parse_i32(" 12"), None);
    assert_eq!(parse_i32("1.5"), None);
    assert_eq!(parse_i32("--3"), None);
    assert_eq!(parse_i32("2147483648"), None);
    assert_eq!(parse_i32("-2147483649"), None);
    assert_eq!(parse_i32("99999999999999999999"), None);
}

#[test]
fn parse_matches_standard_parser() {
    for text in [
        "", "0", "75", "-30", "+42", "abc", "12a", " 12", "007", "2147483647", "2147483648",
        "-2147483648", "-2147483649", "1.5", "--3", "٣", "⁵",
    ] {
        assert_eq!(parse_i32(text), text.parse::<i32>().ok(), "input {text:?}");
    }
}

#[test]
fn decimal_strings() {
    assert_eq!(i32_string(0), "0");
    assert_eq!(i32_string(9), "9");
    assert_eq!(i32_string(10), "10");
    assert_eq!(i32_string(75), "75");
    assert_eq!(i32_string(-5), "-5");
    assert_eq!(i32_string(48000), "48000");
    assert_eq!(i32_string(i32::MAX), "2147483647");
    assert_eq!(i32_string(i32::MIN), "-2147483648");
    for v in [-1000, -37, -1, 0, 1, 12, 999, 123456] {
        assert_eq!(i32_string(v), v.to_string(), "value {v}");
    }
}
