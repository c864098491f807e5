use pseudo_memory::config::pseudo_memory_engine_settings;
use pseudo_memory::harness::fetch_and_increment;
use pseudo_memory::harness::increment_wrapping;
use pseudo_memory::harness::round_trip_holds;

#[test]
fn fetch_and_increment_returns_42_and_leaves_43() {
    let mut word: u64 = 42;
    let returned = fetch_and_increment(&mut word);
    assert_eq!(returned, 42);
    assert_eq!(word, 43);
}

#[test]
fn second_call_returns_43_and_leaves_44() {
    let mut word: u64 = 42;
    let first = fetch_and_increment(&mut word);
    assert_eq!(first, 42);
    let second = fetch_and_increment(&mut word);
    assert_eq!(second, 43);
    assert_eq!(word, 44);
}

#[test]
fn increment_wraps_at_the_top() {
    let mut word: u64 = u64::MAX;
    let returned = fetch_and_increment(&mut word);
    assert_eq!(returned, u64::MAX);
    assert_eq!(word, 0);
    assert_eq!(increment_wrapping(u64::MAX), 0);
}

#[test]
fn round_trip_check_accepts_only_the_promised_pair() {
    assert!(round_trip_holds(42, 42, 43));
    assert!(!round_trip_holds(42, 43, 43));
    assert!(!round_trip_holds(42, 42, 42));
    assert!(round_trip_holds(u64::MAX, u64::MAX, 0));
}

#[test]
fn engine_settings_are_the_documented_switches() {
    let settings = pseudo_memory_engine_settings();
    assert!(settings.memory64);
    assert!(settings.static_memory_forced);
    assert_eq!(settings.static_memory_maximum_size, u64::MAX);
    assert!(settings.multi_memory);
    assert_eq!(settings.static_memory_guard_size, 0);
    assert_eq!(settings.dynamic_memory_guard_size, 0);
    assert!(!settings.guard_before_linear_memory);
    assert!(settings.custom_memory_factory);
}
