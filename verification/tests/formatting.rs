use parchive::progress::tick_interval_secs;
use parchive::progress::ProgressData;
use parchive::progress::ProgressState;
use parchive::utils::pad_left;
use parchive::utils::pad_right;
use parchive::utils::readable_bytes;
use parchive::utils::u64_to_dec;

#[test]
fn test_readable_bytes_values() {
    assert_eq!(readable_bytes(0), "0.00B");
    assert_eq!(readable_bytes(123), "123.00B");
    assert_eq!(readable_bytes(999), "999.00B");
    // 1000 bytes no longer fit below the kilobyte threshold: 1000 / 1024
    // is 0.9765625, rendered to two rounded decimals.
    assert_eq!(readable_bytes(1000), "0.98KB");
    // 1152 / 1024 is exactly 1.125: the tie rounds to even.
    assert_eq!(readable_bytes(1152), "1.12KB");
    // The unit is picked before rounding, so a value just under the
    // threshold may still display as 1000 of the smaller unit.
    assert_eq!(readable_bytes(1023999), "1000.00KB");
    assert_eq!(readable_bytes(1536), "1.50KB");
    assert_eq!(readable_bytes(1024 * 1024), "1.00MB");
    assert_eq!(readable_bytes(10 * 1024 * 1024), "10.00MB");
    assert_eq!(readable_bytes(3 * 1024 * 1024 * 1024), "3.00GB");
    assert_eq!(readable_bytes(1024 * 1024 * 1024 * 1024 * 1024), "1.00PB");
    // u64::MAX / 1024^5 = 16383.9999..., rounded to two decimals.
    assert_eq!(readable_bytes(u64::MAX), "16384.00PB");
}

#[test]
fn test_u64_to_dec_values() {
    assert_eq!(u64_to_dec(0), "0");
    assert_eq!(u64_to_dec(7), "7");
    assert_eq!(u64_to_dec(10), "10");
    assert_eq!(u64_to_dec(90210), "90210");
    assert_eq!(u64_to_dec(u64::MAX), "18446744073709551615");
}

#[test]
fn test_padding() {
    assert_eq!(pad_left("ab".to_string(), 5), "   ab");
    assert_eq!(pad_right("ab".to_string(), 5), "ab   ");
    assert_eq!(pad_left("abcdef".to_string(), 5), "abcdef");
    assert_eq!(pad_right("abcdef".to_string(), 5), "abcdef");
}

#[test]
fn test_progress_data_event() {
    let mut p = ProgressState::new(3, "+".to_string());
    let (line, done) = p.on_event(ProgressData::Data(("a.txt".to_string(), 10)), 1000);
    assert!(!done);
    assert_eq!(line.unwrap(), "+ 1          :   10.00B,   10.00B/s, \"a.txt\"");
    assert_eq!(p.num_files, 1);
    assert_eq!(p.size, 10);

    // Below verbosity 3 a data event prints nothing but still counts.
    let mut quiet = ProgressState::new(2, "+".to_string());
    let (line, done) = quiet.on_event(ProgressData::Data(("a.txt".to_string(), 10)), 1000);
    assert!(line.is_none());
    assert!(!done);
    assert_eq!(quiet.num_files, 1);
}

#[test]
fn test_progress_print_and_stop() {
    let mut p = ProgressState::new(2, "C".to_string());
    p.on_event(ProgressData::Data(("x".to_string(), 2048)), 500);
    let (line, done) = p.on_event(ProgressData::Print, 2000);
    assert!(!done);
    assert_eq!(line.unwrap(), "C 1          :   2.00KB,   1.00KB/s");
    let (line, done) = p.on_event(ProgressData::Stop, 2000);
    assert!(done);
    assert!(line.is_some());

    // Outside verbosity 2 the stop event prints no final summary.
    let mut p1 = ProgressState::new(1, "C".to_string());
    let (line, done) = p1.on_event(ProgressData::Stop, 10);
    assert!(done);
    assert!(line.is_none());
}

#[test]
fn test_progress_speed_zero_elapsed() {
    let mut p = ProgressState::new(2, "C".to_string());
    p.on_event(ProgressData::Data(("x".to_string(), 2048)), 0);
    let (line, _) = p.on_event(ProgressData::Print, 0);
    assert_eq!(line.unwrap(), "C 1          :   2.00KB,    0.00B/s");
}

#[test]
fn test_tick_interval() {
    assert_eq!(tick_interval_secs(true), 1);
    assert_eq!(tick_interval_secs(false), 5);
}
