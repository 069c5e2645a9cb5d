use parchive::config::Args;
use parchive::config::Command;
use parchive::config::CompressType;
use parchive::failures::FailureLog;
use parchive::failures::FailureRecord;
use parchive::paths::plan_output;
use parchive::paths::string_parent;
use parchive::paths::string_with_extension;
use parchive::paths::validate_paths;
use parchive::paths::PathError;
use parchive::scan::plan_representation;
use parchive::scan::Repr;

fn args(command: Command, compress_type: CompressType, input: &str, output: Option<&str>) -> Args {
    Args {
        command,
        compress_type,
        input: input.to_string(),
        output: output.map(|s| s.to_string()),
        log_level: 1,
        compress_level: None,
        no_long_distance_matching: false,
        small_file_size: 10485760,
    }
}

#[test]
fn test_threshold_boundary() {
    let threshold = 10485760u64;
    assert_eq!(plan_representation(threshold, threshold), Repr::Streamed);
    assert_eq!(plan_representation(threshold, threshold - 1), Repr::Buffered);
    assert_eq!(plan_representation(threshold, threshold + 1), Repr::Streamed);
    // A zero threshold disables streaming entirely.
    assert_eq!(plan_representation(0, u64::MAX), Repr::Buffered);
}

#[test]
fn test_effective_compress_level() {
    assert_eq!(args(Command::C, CompressType::TARZSTD, "x", None).effective_compress_level(), 3);
    let mut a = args(Command::C, CompressType::TARZSTD, "x", None);
    a.compress_level = Some(0);
    assert_eq!(a.effective_compress_level(), 1);
    a.compress_level = Some(9);
    assert_eq!(a.effective_compress_level(), 9);
    a.compress_level = Some(22);
    assert_eq!(a.effective_compress_level(), 22);
    a.compress_level = Some(40);
    assert_eq!(a.effective_compress_level(), 22);
}

#[test]
fn test_plan_output_compress_defaults() {
    assert_eq!(plan_output(&args(Command::C, CompressType::TARZSTD, "photos", None)), "photos.tar.zst");
    assert_eq!(plan_output(&args(Command::C, CompressType::ZIP, "a/b.txt", None)), "a/b.zip");
    assert_eq!(plan_output(&args(Command::C, CompressType::TARZSTD, "a.dir/name", None)), "a.dir/name.tar.zst");
    // A leading dot marks a hidden file, not an extension.
    assert_eq!(plan_output(&args(Command::C, CompressType::TARZSTD, ".cfg", None)), ".cfg.tar.zst");
    // Trailing separators name the same directory and are dropped first.
    assert_eq!(plan_output(&args(Command::C, CompressType::TARZSTD, "dir/", None)), "dir.tar.zst");
    assert_eq!(plan_output(&args(Command::C, CompressType::ZIP, "a/b//", None)), "a/b.zip");
    assert_eq!(
        plan_output(&args(Command::C, CompressType::ZIP, "x", Some("explicit.bin"))),
        "explicit.bin"
    );
}

#[test]
fn test_plan_output_decompress_defaults() {
    assert_eq!(plan_output(&args(Command::X, CompressType::TARZSTD, "/tmp/x.tar.zst", None)), "/tmp");
    assert_eq!(plan_output(&args(Command::X, CompressType::ZIP, "x.zip", None)), "");
    assert_eq!(plan_output(&args(Command::X, CompressType::ZIP, "/x.zip", None)), "/");
    assert_eq!(plan_output(&args(Command::X, CompressType::ZIP, "a/b/c.zip", Some("out"))), "out");
}

#[test]
fn test_string_helpers() {
    assert_eq!(string_with_extension(&"file.tar".to_string(), "tar.zst"), "file.tar.zst");
    assert_eq!(string_with_extension(&"file".to_string(), "zip"), "file.zip");
    assert_eq!(string_parent(&"a/b/c".to_string()), "a/b");
    assert_eq!(string_parent(&"c".to_string()), "");
}

#[test]
fn test_validate_paths() {
    assert_eq!(validate_paths(Command::C, false, false, false, false), Err(PathError::InputMissing));
    assert_eq!(validate_paths(Command::X, false, false, true, true), Err(PathError::InputMissing));
    assert_eq!(validate_paths(Command::X, true, false, false, false), Err(PathError::InputNotFile));
    assert_eq!(
        validate_paths(Command::X, true, true, true, false),
        Err(PathError::OutputNotDirectory)
    );
    // Compress plans the removal of an existing output file.
    assert_eq!(validate_paths(Command::C, true, false, true, false), Ok(true));
    assert_eq!(validate_paths(Command::C, true, true, false, false), Ok(false));
    assert_eq!(validate_paths(Command::X, true, true, false, false), Ok(false));
    assert_eq!(validate_paths(Command::X, true, true, true, true), Ok(false));
}

#[test]
fn test_failure_log() {
    let mut log = FailureLog::new();
    assert!(log.is_ok());
    log.record_success();
    log.record_success();
    assert!(log.is_ok());
    log.record_failure(FailureRecord { path: "p".to_string(), cause: "broken".to_string() });
    assert!(!log.is_ok());
    assert_eq!(log.successes, 2);
    assert_eq!(log.failures.len(), 1);
    assert_eq!(log.failures[0].path, "p");
    assert_eq!(log.failures[0].cause, "broken");
}
