use vfs_apis::cloud::CloudItem;
use vfs_apis::error::{ErrorCode, VfsError};
use vfs_apis::list::{
    cloud_entries, cloud_folder_outcome, cloud_listing, combine_listings, include_in_manifest,
    local_entry, merge_files, raw_failed_part, raw_folder_failure, raw_listing_items, raw_listing_text,
    raw_listing_without_token, FileInfo, ListDirResult,
};

fn info(name: &str, t: u64, size: u64, source: u32) -> FileInfo {
    FileInfo { name: name.to_string(), modified_time: t, size, source, is_directory: false }
}

fn summary(v: &[FileInfo]) -> Vec<(String, u64, u32)> {
    v.iter().map(|f| (f.name.clone(), f.modified_time, f.source)).collect()
}

fn item(name: &str, id: &str, mime: Option<&str>, edited: Option<&str>, size: Option<u64>) -> CloudItem {
    CloudItem {
        id: Some(id.to_string()),
        file_name: name.to_string(),
        parent_folder: Some(vec!["applicationData".to_string()]),
        edited_time: edited.map(|s| s.to_string()),
        size,
        mime_type: mime.map(|s| s.to_string()),
    }
}

#[test]
fn merge_keeps_newer_and_sorts() {
    let local = vec![info("b.txt", 100, 1, 1), info("a.txt", 300, 2, 1), info("c.txt", 50, 3, 1)];
    let cloud = vec![info("c.txt", 60, 4, 2), info("a.txt", 200, 5, 2), info("d.txt", 10, 6, 2)];
    let merged = merge_files(local, cloud);
    assert_eq!(
        summary(&merged),
        vec![
            ("a.txt".to_string(), 300, 1),
            ("b.txt".to_string(), 100, 1),
            ("c.txt".to_string(), 60, 2),
            ("d.txt".to_string(), 10, 2),
        ]
    );
}

#[test]
fn merge_prefers_local_on_equal_time() {
    let merged = merge_files(vec![info("x", 5, 1, 1)], vec![info("x", 5, 9, 2)]);
    assert_eq!(merged.len(), 1);
    assert_eq!(merged[0].source, 1);
    assert_eq!(merged[0].size, 1);
}

#[test]
fn merge_of_nothing_is_empty() {
    assert!(merge_files(vec![], vec![]).is_empty());
}

#[test]
fn merge_sorts_by_bytes() {
    let merged = merge_files(vec![info("b", 1, 0, 1), info("B", 1, 0, 1), info("ä", 1, 0, 1), info("a", 1, 0, 1)], vec![]);
    let names: Vec<String> = merged.iter().map(|f| f.name.clone()).collect();
    assert_eq!(names, vec!["B", "a", "b", "ä"]);
}

#[test]
fn merge_later_local_duplicate_wins() {
    let merged = merge_files(vec![info("x", 9, 1, 1), info("x", 3, 2, 1)], vec![]);
    assert_eq!(merged.len(), 1);
    assert_eq!(merged[0].modified_time, 3);
}

#[test]
fn local_entries_of_directories_have_no_size() {
    let d = local_entry("dir".to_string(), true, 4096, 7);
    assert_eq!((d.size, d.source, d.is_directory, d.modified_time), (0, 1, true, 7));
    let f = local_entry("f".to_string(), false, 12, 7);
    assert_eq!(f.size, 12);
}

#[test]
fn cloud_items_become_entries() {
    let items = vec![
        item("docs", "id1", Some("application/vnd.huawei-apps.folder"), Some("2024-01-01T00:00:00Z"), None),
        item("f.txt", "id2", Some("text/plain"), Some("garbage"), Some(42)),
        item("g", "id3", None, None, None),
    ];
    let entries = cloud_entries(&items);
    assert_eq!(entries.len(), 3);
    assert_eq!((entries[0].is_directory, entries[0].modified_time, entries[0].size, entries[0].source), (true, 1704067200, 0, 2));
    assert_eq!((entries[1].is_directory, entries[1].modified_time, entries[1].size), (false, 0, 42));
    assert_eq!((entries[2].is_directory, entries[2].modified_time), (false, 0));
}

#[test]
fn cloud_listing_reports_failures() {
    let e = cloud_listing(500, Ok(vec![])).unwrap_err();
    assert_eq!(e.code, ErrorCode::NetworkError);
    assert_eq!(e.message, "Cloud API returned status: 500");
    let p = cloud_listing(200, Err("expected value".to_string())).unwrap_err();
    assert_eq!(p.code, ErrorCode::InvalidParameter);
    assert_eq!(p.message, "Failed to parse cloud response: expected value");
    let ok = cloud_listing(200, Ok(vec![item("a", "1", None, None, Some(3))])).unwrap();
    assert_eq!(ok.len(), 1);
}

#[test]
fn failed_side_is_reported() {
    let r: ListDirResult = combine_listings(
        Err(VfsError::new(ErrorCode::IoError, "no dir")),
        Ok(vec![info("z", 1, 1, 2)]),
    );
    assert_eq!(r.error_code, ErrorCode::IoError);
    assert_eq!(r.error_message.as_deref(), Some("no dir"));
    assert_eq!(summary(&r.files), vec![("z".to_string(), 1, 2)]);
    let cloud = combine_listings(Ok(vec![info("a", 1, 1, 1)]), Err(VfsError::new(ErrorCode::NetworkError, "x")));
    assert_eq!((cloud.error_code, cloud.error_message.as_deref()), (ErrorCode::NetworkError, Some("x")));
    assert_eq!(summary(&cloud.files), vec![("a".to_string(), 1, 1)]);
    let both = combine_listings(
        Err(VfsError::new(ErrorCode::IoError, "local")),
        Err(VfsError::new(ErrorCode::NetworkError, "cloud")),
    );
    assert_eq!((both.error_code, both.error_message.as_deref()), (ErrorCode::IoError, Some("local")));
    assert!(both.files.is_empty());
    let fine = combine_listings(Ok(vec![]), Ok(vec![info("b", 1, 1, 2)]));
    assert_eq!((fine.error_code, fine.error_message.is_none()), (ErrorCode::Success, true));
}

#[test]
fn missing_cloud_folder_lists_nothing() {
    assert_eq!(cloud_folder_outcome(Ok("ID".to_string())).unwrap(), Some("ID".to_string()));
    assert_eq!(cloud_folder_outcome(Err(VfsError::new(ErrorCode::PathNotFound, "Folder 'a' not found"))).unwrap(), None);
    let e = cloud_folder_outcome(Err(VfsError::new(ErrorCode::NetworkError, "down"))).unwrap_err();
    assert_eq!(e.message, "down");
}

#[test]
fn raw_listing_helpers() {
    assert_eq!(raw_listing_without_token(), "No access token, please click 'get at' first");
    assert_eq!(raw_folder_failure("a", "Folder 'a' not found"), "Folder 'a' not found: Folder 'a' not found");
    assert_eq!(raw_listing_items(404, Ok(vec![])).unwrap_err().message, "Cloud API returned status: 404");
    let p = raw_listing_items(200, Err("bad".to_string())).unwrap_err();
    assert_eq!((p.code, p.message.as_str()), (ErrorCode::JsonError, "Failed to parse cloud response: bad"));
    assert_eq!(raw_listing_items(200, Ok(vec![item("x", "1", None, None, None)])).unwrap().len(), 1);
}

#[test]
fn list_dir_result_constructors() {
    let s = ListDirResult::success(vec![info("a", 1, 1, 1)]);
    assert_eq!(s.error_code, ErrorCode::Success);
    assert_eq!(s.files.len(), 1);
    let e = ListDirResult::error(ErrorCode::PathNotFound, "missing".to_string());
    assert!(e.files.is_empty());
    assert_eq!(e.error_message.as_deref(), Some("missing"));
}

#[test]
fn hidden_names_stay_out_of_manifest() {
    assert!(!include_in_manifest(".sync_state"));
    assert!(!include_in_manifest(".hidden"));
    assert!(include_in_manifest("a.txt"));
    assert!(include_in_manifest(""));
}

#[test]
fn raw_listing_shows_items_of_the_folder() {
    let mut other = item("elsewhere", "id9", None, None, None);
    other.parent_folder = Some(vec!["other".to_string()]);
    let items = vec![
        item("docs", "id1", Some("application/vnd.huawei-apps.folder"), None, None),
        other,
        item("f.txt", "id2", Some("text/plain"), None, Some(42)),
    ];
    let text = raw_listing_text("/", "applicationData", &items);
    assert_eq!(
        text,
        "Cloud path '/' (parent=applicationData): 2 files\n  [DIR]  docs  size=-  id=id1\n  [FILE] f.txt  size=42 bytes  id=id2\n"
    );
    let empty = raw_listing_text("/x", "idx", &items);
    assert_eq!(empty, "Cloud path '/x' is empty (no files found)");
}

#[test]
fn cloud_folders_have_no_size() {
    let items = vec![item("dir", "d", Some("application/vnd.huawei-apps.folder"), None, Some(4096))];
    let entries = cloud_entries(&items);
    assert_eq!((entries[0].is_directory, entries[0].size), (true, 0));
}

#[test]
fn merge_ignores_input_order() {
    let l1 = vec![info("b", 5, 1, 1), info("a", 1, 1, 1)];
    let l2 = vec![info("a", 1, 1, 1), info("b", 5, 1, 1)];
    let c1 = vec![info("a", 9, 2, 2), info("c", 3, 3, 2)];
    let c2 = vec![info("c", 3, 3, 2), info("a", 9, 2, 2)];
    let r1 = merge_files(l1, c1);
    let r2 = merge_files(l2, c2);
    assert_eq!(summary(&r1), summary(&r2));
    assert_eq!(summary(&r1), vec![("a".to_string(), 9, 2), ("b".to_string(), 5, 1), ("c".to_string(), 3, 2)]);
}

#[test]
fn raw_walk_failure_names_the_last_folder_searched() {
    let parts = vec!["a".to_string(), "b".to_string()];
    assert_eq!(raw_failed_part(&parts, 2), "b");
    assert_eq!(raw_failed_part(&parts, 1), "a");
    assert_eq!(raw_failed_part(&parts, 0), "");
    assert_eq!(raw_failed_part(&parts, 3), "");
}
