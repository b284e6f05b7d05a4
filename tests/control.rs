use smart_agri::frame::{line_origin, DisplayFrame, Reading, SensorOutcome, LINE_COUNT};
use smart_agri::policy::{needs_water, relay_level, RelayLevel, THRESHOLD};
use smart_agri::text::{push_decimal, Line};

fn success(temperature: u8, humidity: u8) -> SensorOutcome {
    SensorOutcome::Success(Reading { temperature, humidity })
}

#[test]
fn wet_sample_turns_pump_off() {
    assert_eq!(THRESHOLD, 2048);
    assert!(!needs_water(4095));
    assert_eq!(relay_level(needs_water(4095)), RelayLevel::Off);
    let mut f = DisplayFrame::new();
    let level = f.run_cycle(success(20, 40), 4095);
    assert_eq!(level, RelayLevel::Off);
    assert!(!level.is_high());
    assert_eq!(f.relay.as_str(), "Pump Off");
    assert_eq!(f.moisture.as_str(), "Moisture Analog 4095");
}

#[test]
fn dry_sample_turns_pump_on() {
    assert!(needs_water(100));
    assert_eq!(relay_level(needs_water(100)), RelayLevel::On);
    let mut f = DisplayFrame::new();
    let level = f.run_cycle(success(20, 40), 100);
    assert_eq!(level, RelayLevel::On);
    assert!(level.is_high());
    assert_eq!(f.relay.as_str(), "Pump On");
    assert_eq!(f.moisture.as_str(), "Moisture Analog 100");
}

#[test]
fn successful_read_fills_sensor_lines() {
    let mut f = DisplayFrame::new();
    f.run_cycle(success(26, 55), 3000);
    assert_eq!(f.temperature.as_str(), "Temperature 26C");
    assert_eq!(f.humidity.as_str(), "Humidity 55%");
    assert_eq!(f.error.as_str(), "");
}

#[test]
fn timing_error_keeps_last_good_lines() {
    let mut f = DisplayFrame::new();
    f.run_cycle(success(26, 55), 3000);
    f.run_cycle(SensorOutcome::TimingError, 1500);
    assert_eq!(f.error.as_str(), "DHT Timing Error");
    assert_eq!(f.temperature.as_str(), "Temperature 26C");
    assert_eq!(f.humidity.as_str(), "Humidity 55%");
    assert_eq!(f.relay.as_str(), "Pump On");
    assert_eq!(f.moisture.as_str(), "Moisture Analog 1500");
}

#[test]
fn threshold_sample_is_not_dry() {
    assert!(!needs_water(THRESHOLD));
    assert!(needs_water(THRESHOLD - 1));
    let mut f = DisplayFrame::new();
    assert_eq!(f.run_cycle(success(1, 2), THRESHOLD), RelayLevel::Off);
    assert_eq!(f.relay.as_str(), "Pump Off");
}

#[test]
fn decision_has_no_memory() {
    let first = needs_water(2047);
    let _ = needs_water(0);
    let _ = needs_water(65535);
    assert_eq!(needs_water(2047), first);
    assert!(first);
    assert!(needs_water(0));
    assert!(!needs_water(65535));
}

#[test]
fn error_before_any_success_leaves_sensor_lines_empty() {
    let mut f = DisplayFrame::new();
    f.run_cycle(SensorOutcome::TimingError, 10);
    assert_eq!(f.temperature.as_str(), "");
    assert_eq!(f.humidity.as_str(), "");
    assert_eq!(f.error.as_str(), "DHT Timing Error");
}

#[test]
fn success_clears_earlier_error() {
    let mut f = DisplayFrame::new();
    f.run_cycle(SensorOutcome::TimingError, 10);
    f.run_cycle(success(30, 70), 10);
    assert_eq!(f.error.as_str(), "");
    assert_eq!(f.temperature.as_str(), "Temperature 30C");
    assert_eq!(f.humidity.as_str(), "Humidity 70%");
}

#[test]
fn repeated_cycle_gives_same_frame() {
    for outcome in [success(26, 55), SensorOutcome::TimingError] {
        let mut f = DisplayFrame::new();
        f.run_cycle(success(12, 34), 2500);
        f.run_cycle(outcome, 700);
        let once: Vec<String> = (0..LINE_COUNT).map(|i| f.line(i).as_str().to_string()).collect();
        f.run_cycle(outcome, 700);
        let twice: Vec<String> = (0..LINE_COUNT).map(|i| f.line(i).as_str().to_string()).collect();
        assert_eq!(once, twice);
    }
}

#[test]
fn relay_follows_decision() {
    assert_eq!(relay_level(true), RelayLevel::On);
    assert_eq!(relay_level(false), RelayLevel::Off);
    let mut f = DisplayFrame::new();
    assert_eq!(f.run_cycle(success(1, 1), 0), RelayLevel::On);
    assert_eq!(f.run_cycle(success(1, 1), 65535), RelayLevel::Off);
    assert_eq!(f.moisture.as_str(), "Moisture Analog 65535");
    assert_eq!(f.run_cycle(SensorOutcome::TimingError, 2047), RelayLevel::On);
    assert_eq!(f.relay.as_str(), "Pump On");
}

#[test]
fn extreme_readings_fit_their_lines() {
    let mut f = DisplayFrame::new();
    f.run_cycle(success(255, 0), 0);
    assert_eq!(f.temperature.as_str(), "Temperature 255C");
    assert_eq!(f.humidity.as_str(), "Humidity 0%");
    assert_eq!(f.moisture.as_str(), "Moisture Analog 0");
}

#[test]
fn new_frame_is_empty() {
    let f = DisplayFrame::new();
    for i in 0..LINE_COUNT {
        assert_eq!(f.line(i).as_str(), "");
    }
}

#[test]
fn lines_are_drawn_in_order_ten_rows_apart() {
    let mut f = DisplayFrame::new();
    f.run_cycle(SensorOutcome::TimingError, 4000);
    let texts: Vec<&str> = (0..LINE_COUNT).map(|i| f.line(i).as_str()).collect();
    assert_eq!(texts, vec!["Moisture Analog 4000", "Pump Off", "", "", "DHT Timing Error"]);
    let origins: Vec<(i32, i32)> = (0..LINE_COUNT).map(line_origin).collect();
    assert_eq!(origins, vec![(5, 5), (5, 15), (5, 25), (5, 35), (5, 45)]);
}

#[test]
fn decimal_is_appended_after_existing_text() {
    let mut s: Line = Line::new();
    s.push_str("n=").unwrap();
    push_decimal(&mut s, 0);
    assert_eq!(s.as_str(), "n=0");
    let mut t: Line = Line::new();
    push_decimal(&mut t, 4294967295);
    assert_eq!(t.as_str(), "4294967295");
    let mut u: Line = Line::new();
    push_decimal(&mut u, 1090);
    assert_eq!(u.as_str(), "1090");
}
