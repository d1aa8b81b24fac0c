use hostfetch::{format_memory, format_uptime};

#[test]
fn uptime_example_with_padding() {
    assert_eq!(format_uptime(5025), "01h 23m");
}

#[test]
fn uptime_hours_are_unbounded() {
    assert_eq!(format_uptime(360000), "100h 00m");
}

#[test]
fn uptime_zero() {
    assert_eq!(format_uptime(0), "00h 00m");
}

#[test]
fn uptime_just_under_an_hour() {
    assert_eq!(format_uptime(3599), "00h 59m");
}

#[test]
fn uptime_exactly_an_hour() {
    assert_eq!(format_uptime(3600), "01h 00m");
}

#[test]
fn uptime_seconds_are_discarded() {
    assert_eq!(format_uptime(7384), "02h 03m");
}

#[test]
fn memory_example() {
    assert_eq!(format_memory(2048000, 8192000), "2000/8000 MB");
}

#[test]
fn memory_zero() {
    assert_eq!(format_memory(0, 0), "0/0 MB");
}

#[test]
fn memory_division_truncates() {
    assert_eq!(format_memory(1023, 2049), "0/2 MB");
}

#[test]
fn memory_scenario_values() {
    assert_eq!(format_memory(4096000, 16384000), "4000/16000 MB");
}
