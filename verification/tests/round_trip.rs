use parchive::failures::FailureRecord;
use parchive::scan::FileEntry;
use parchive::scan::Repr;
use parchive::scan::ScanOutcome;
use parchive::tar_pipeline::compress_then_extract_tar;
use parchive::tar_pipeline::tar_compress_pipeline;
use parchive::tar_pipeline::untar_extract;
use parchive::zip_pipeline::compress_then_extract_zip;
use parchive::zip_pipeline::unzip_extract;
use parchive::zip_pipeline::zip_compress_pipeline;

fn entry(rel_path: &str, mtime: u64, data: Vec<u8>, repr: Repr) -> ScanOutcome {
    ScanOutcome::File(FileEntry { rel_path: rel_path.to_string(), mtime, data, repr })
}

fn big_payload() -> Vec<u8> {
    let size = 30 * 1024 * 1024;
    let mut data = Vec::with_capacity(size);
    while data.len() < size {
        data.extend_from_slice(b"This is a big test file.\n");
    }
    data.truncate(size);
    data
}

fn test_tree() -> Vec<ScanOutcome> {
    let long_name: String =
        (1..=50).map(|n| n.to_string()).collect::<Vec<_>>().join("_") + ".txt";
    vec![
        entry("test_small.txt", 1700000000, b"This is a small test file.".to_vec(), Repr::Buffered),
        entry(
            "dir/test_small.txt",
            1700000001,
            b"This is a small test file in a subdirectory.".to_vec(),
            Repr::Buffered,
        ),
        entry(&long_name, 1700000002, b"This is a log file with a long name.".to_vec(), Repr::Buffered),
        entry("empty.txt", 1700000003, Vec::new(), Repr::Buffered),
        entry("test_big.txt", 1700000004, big_payload(), Repr::Streamed),
    ]
}

fn expect_files(items: &[ScanOutcome]) -> Vec<&FileEntry> {
    items
        .iter()
        .filter_map(|it| match it {
            ScanOutcome::File(e) => Some(e),
            ScanOutcome::Failed(_) => None,
        })
        .collect()
}

#[test]
fn test_tar_zstd() {
    let items = test_tree();
    let (container, log) = tar_compress_pipeline(&items, 3, true, 2).unwrap();
    assert!(log.is_ok());
    let out = untar_extract(&container).unwrap();
    let files = expect_files(&items);
    assert_eq!(out.len(), files.len());
    for (got, want) in out.iter().zip(files.iter()) {
        assert_eq!(got.rel_path, want.rel_path);
        assert_eq!(got.mtime, want.mtime);
        assert_eq!(got.data, want.data);
    }
}

#[test]
fn test_zip() {
    let items = test_tree();
    let (container, log) = zip_compress_pipeline(&items).unwrap();
    assert!(log.is_ok());
    let out = unzip_extract(&container).unwrap();
    let files = expect_files(&items);
    assert_eq!(out.len(), files.len());
    for (got, want) in out.iter().zip(files.iter()) {
        assert_eq!(got.0, want.rel_path);
        assert_eq!(got.1, want.data);
    }
}

#[test]
fn test_round_trip_law_functions() {
    let items = test_tree();
    let out = compress_then_extract_tar(&items, 19, false, 2).unwrap();
    assert_eq!(out.len(), 5);
    let (records, log) = compress_then_extract_zip(&items).unwrap();
    assert!(log.is_ok());
    assert_eq!(records.len(), 5);
}

#[test]
fn test_hash_oracle() {
    let items = test_tree();
    let mut before = std::collections::HashMap::new();
    for f in expect_files(&items) {
        before.insert(f.rel_path.clone(), blake3::hash(&f.data).to_hex().to_string());
    }

    let (container, _) = tar_compress_pipeline(&items, 3, true, 2).unwrap();
    let mut after_tar = std::collections::HashMap::new();
    for f in untar_extract(&container).unwrap() {
        after_tar.insert(f.rel_path.clone(), blake3::hash(&f.data).to_hex().to_string());
    }
    assert_eq!(before, after_tar);

    let (container, _) = zip_compress_pipeline(&items).unwrap();
    let mut after_zip = std::collections::HashMap::new();
    for (name, data) in unzip_extract(&container).unwrap() {
        after_zip.insert(name, blake3::hash(&data).to_hex().to_string());
    }
    assert_eq!(before, after_zip);
}

#[test]
fn test_empty_input() {
    let items: Vec<ScanOutcome> = Vec::new();
    let (container, log) = tar_compress_pipeline(&items, 3, true, 2).unwrap();
    assert!(log.is_ok());
    assert_eq!(untar_extract(&container).unwrap().len(), 0);

    let (container, log) = zip_compress_pipeline(&items).unwrap();
    assert!(log.is_ok());
    assert_eq!(unzip_extract(&container).unwrap().len(), 0);
}

#[test]
fn test_partial_failure() {
    let mut items = test_tree();
    items.insert(
        2,
        ScanOutcome::Failed(FailureRecord {
            path: "dir/unreadable.txt".to_string(),
            cause: "permission denied".to_string(),
        }),
    );

    let (container, log) = tar_compress_pipeline(&items, 3, true, 2).unwrap();
    assert!(!log.is_ok());
    assert_eq!(log.failures.len(), 1);
    assert_eq!(log.failures[0].path, "dir/unreadable.txt");
    assert_eq!(log.failures[0].cause, "permission denied");
    assert_eq!(log.successes, 5);
    let out = untar_extract(&container).unwrap();
    assert_eq!(out.len(), 5);

    let (container, log) = zip_compress_pipeline(&items).unwrap();
    assert!(!log.is_ok());
    assert_eq!(log.failures.len(), 1);
    assert_eq!(log.failures[0].path, "dir/unreadable.txt");
    let out = unzip_extract(&container).unwrap();
    assert_eq!(out.len(), 5);
    assert!(out.iter().any(|(name, _)| name == "test_big.txt"));
}

#[test]
fn test_mtime_preserved() {
    let items = vec![
        entry("zero.txt", 0, b"a".to_vec(), Repr::Buffered),
        entry("recent.txt", 1700000000, b"b".to_vec(), Repr::Buffered),
        entry("far_future.txt", 10_000_000_000, b"c".to_vec(), Repr::Buffered),
    ];
    let (container, _) = tar_compress_pipeline(&items, 3, false, 1).unwrap();
    let out = untar_extract(&container).unwrap();
    assert_eq!(out[0].mtime, 0);
    assert_eq!(out[1].mtime, 1700000000);
    assert_eq!(out[2].mtime, 10_000_000_000);
}

#[test]
fn test_threshold_round_trip() {
    // The same bytes, once below and once at the threshold, once buffered
    // and once streamed: the containers hold identical contents.
    let data = vec![7u8; 4096];
    let buffered = vec![entry("f.bin", 5, data.clone(), Repr::Buffered)];
    let streamed = vec![entry("f.bin", 5, data.clone(), Repr::Streamed)];
    let out_b = compress_then_extract_tar(&buffered, 3, false, 1).unwrap();
    let out_s = compress_then_extract_tar(&streamed, 3, false, 1).unwrap();
    assert_eq!(out_b[0].rel_path, out_s[0].rel_path);
    assert_eq!(out_b[0].data, out_s[0].data);
    assert_eq!(out_b[0].mtime, out_s[0].mtime);
}
