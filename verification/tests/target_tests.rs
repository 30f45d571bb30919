//! Monitors, windows, and the device-creation decision.

use pixel_forge::direct_x::{check_feature_level, DirectXError, REQUIRED_FEATURE_LEVEL};
use pixel_forge::monitor::{Monitor, MonitorError};
use pixel_forge::window::{utf16_before_nul, Window, WindowProbe, WS_CHILD, WS_EX_TOOLWINDOW};

fn utf16(s: &str) -> Vec<u16> {
    s.chars().map(|c| c as u16).collect()
}

fn valid_probe() -> WindowProbe {
    WindowProbe {
        visible: true,
        owning_process: 4242,
        current_process: 17,
        client_rect_ok: true,
        styles: 0x10_0000,
        ex_styles: 0x100,
    }
}

#[test]
fn monitor_handle_round_trip() {
    let m = Monitor::from_handle(-77);
    assert_eq!(m.as_raw_hmonitor(), -77);
}

#[test]
fn window_handle_round_trip() {
    let w = Window::from_handle(12345);
    assert_eq!(w.as_handle(), 12345);
}

#[test]
fn from_index_rejects_zero() {
    let monitors = vec![Monitor::from_handle(1)];
    assert_eq!(Monitor::from_index(&monitors, 0), Err(MonitorError::IndexError));
}

#[test]
fn from_index_rejects_past_the_end() {
    let monitors = vec![Monitor::from_handle(1), Monitor::from_handle(2)];
    assert_eq!(Monitor::from_index(&monitors, 3), Err(MonitorError::NotFound));
    let none: Vec<Monitor> = Vec::new();
    assert_eq!(Monitor::from_index(&none, 1), Err(MonitorError::NotFound));
}

#[test]
fn from_index_is_one_based() {
    let monitors = vec![Monitor::from_handle(10), Monitor::from_handle(20)];
    assert_eq!(Monitor::from_index(&monitors, 1), Ok(Monitor::from_handle(10)));
    assert_eq!(Monitor::from_index(&monitors, 2), Ok(Monitor::from_handle(20)));
}

#[test]
fn device_name_index_is_parsed() {
    assert_eq!(Monitor::index(&utf16("\\\\.\\DISPLAY1")), Ok(1));
    assert_eq!(Monitor::index(&utf16("\\\\.\\DISPLAY3")), Ok(3));
    assert_eq!(Monitor::index(&utf16("\\\\.\\DISPLAY42")), Ok(42));
    assert_eq!(Monitor::index(&utf16("\\\\.\\DISPLAY007")), Ok(7));
}

#[test]
fn device_name_index_rejects_bad_names() {
    // No digits after the prefix.
    assert_eq!(Monitor::index(&utf16("\\\\.\\DISPLAY")), Err(MonitorError::MonitorIndexError));
    // A different prefix.
    assert_eq!(Monitor::index(&utf16("\\\\.\\MONITOR1")), Err(MonitorError::MonitorIndexError));
    // A stray non-digit among the digits.
    assert_eq!(Monitor::index(&utf16("\\\\.\\DISPLAY1a")), Err(MonitorError::MonitorIndexError));
    // Empty and too-short names.
    assert_eq!(Monitor::index(&utf16("")), Err(MonitorError::MonitorIndexError));
    assert_eq!(Monitor::index(&utf16("\\\\.\\DIS")), Err(MonitorError::MonitorIndexError));
    // An index too large to represent.
    assert_eq!(
        Monitor::index(&utf16("\\\\.\\DISPLAY99999999999999999999999")),
        Err(MonitorError::MonitorIndexError)
    );
}

#[test]
fn utf16_truncates_at_the_first_nul() {
    let mut units = utf16("DISPLAY");
    units.push(0);
    units.push(88);
    units.push(0);
    assert_eq!(utf16_before_nul(&units), utf16("DISPLAY"));
}

#[test]
fn utf16_without_nul_is_kept_whole() {
    let units = utf16("abc");
    assert_eq!(utf16_before_nul(&units), units);
}

#[test]
fn utf16_of_empty_or_leading_nul_is_empty() {
    assert_eq!(utf16_before_nul(&Vec::new()), Vec::<u16>::new());
    assert_eq!(utf16_before_nul(&vec![0u16, 65, 66]), Vec::<u16>::new());
}

#[test]
fn window_probe_all_conditions_met_is_valid() {
    assert!(Window::valid(&valid_probe()));
}

#[test]
fn window_probe_each_failing_condition_invalidates() {
    let mut p = valid_probe();
    p.visible = false;
    assert!(!Window::valid(&p));

    let mut p = valid_probe();
    p.owning_process = p.current_process;
    assert!(!Window::valid(&p));

    let mut p = valid_probe();
    p.client_rect_ok = false;
    assert!(!Window::valid(&p));

    let mut p = valid_probe();
    p.ex_styles |= WS_EX_TOOLWINDOW;
    assert!(!Window::valid(&p));

    let mut p = valid_probe();
    p.styles |= WS_CHILD;
    assert!(!Window::valid(&p));
}

#[test]
fn feature_level_must_match_exactly() {
    assert_eq!(check_feature_level(REQUIRED_FEATURE_LEVEL), Ok(()));
    assert_eq!(check_feature_level(0xb000), Err(DirectXError::FeatureLevelNotSatisfied));
    assert_eq!(check_feature_level(0xc100), Err(DirectXError::FeatureLevelNotSatisfied));
    assert_eq!(check_feature_level(0), Err(DirectXError::FeatureLevelNotSatisfied));
}
