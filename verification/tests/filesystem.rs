use mediacore::errors::CoreError;
use mediacore::listing::{read_directory, DirEntryRecord};
use mediacore::recycle::move_to_recycle_bin;

fn readable(name: &str, size: u64, is_dir: bool, modified_secs: i64) -> DirEntryRecord {
    DirEntryRecord::Readable {
        name: name.to_string(),
        path: format!("/tmp/listing/{}", name),
        size,
        is_dir,
        modified_secs,
    }
}

#[test]
fn listing_skips_the_unreadable_entry_and_keeps_the_siblings() {
    let entries = vec![
        readable("a.txt", 10, false, 0),
        DirEntryRecord::Unreadable,
        readable("b", 4096, true, 1_700_000_000),
    ];
    let infos = read_directory(&entries);
    assert_eq!(infos.len(), 2);
    assert_eq!(infos[0].name, "a.txt");
    assert_eq!(infos[0].path, "/tmp/listing/a.txt");
    assert_eq!(infos[0].size, 10);
    assert!(!infos[0].is_dir);
    assert_eq!(infos[1].name, "b");
    assert_eq!(infos[1].size, 4096);
    assert!(infos[1].is_dir);
}

#[test]
fn listing_renders_timestamps_to_second_precision() {
    let entries = vec![readable("epoch", 1, false, 0)];
    let infos = read_directory(&entries);
    assert_eq!(infos.len(), 1);
    let rendered = &infos[0].modified_time;
    // Local time of the Unix epoch lies at the end of 1969 or the start of
    // 1970 in every time zone.
    assert!(rendered.len() >= 19);
    assert!(rendered.starts_with("19"));
    assert_eq!(rendered.matches(':').count(), 2);
}

#[test]
fn listing_skips_a_timestamp_outside_the_renderable_range() {
    let entries = vec![
        readable("normal", 1, false, 1_700_000_000),
        readable("absurd", 1, false, i64::MAX),
    ];
    let infos = read_directory(&entries);
    assert_eq!(infos.len(), 1);
    assert_eq!(infos[0].name, "normal");
}

#[test]
fn empty_listing_stays_empty() {
    let infos = read_directory(&Vec::new());
    assert!(infos.is_empty());
}

#[test]
fn recycling_a_nonexistent_path_is_a_trash_error_not_a_crash() {
    let r = move_to_recycle_bin("/definitely/not/present/anywhere-at-all");
    match r {
        Err(CoreError::TrashError { message }) => assert!(!message.is_empty()),
        Ok(()) => panic!("recycling a nonexistent path must not succeed"),
        _ => panic!("the failure must be a trash error"),
    }
}
