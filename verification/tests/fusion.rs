use vfs_apis::cloud::CloudItem;
use vfs_apis::error::{ErrorCode, VfsError};
use vfs_apis::filesystem::FileStat;
use vfs_apis::mkdir::{adapter_created_folder_id, mk_dir_outcome};
use vfs_apis::read::{choose_read_source, cloud_file_info, download_content, remote_file, FileInfo, ReadFileResult, ReadSource};
use vfs_apis::rm::{cloud_deleted, delete_status, remote_file_id, rm_outcome};
use vfs_apis::stat::{choose_file_stat, choose_stat, cloud_meta, remote_meta, FileMeta, StatFileResult};
use vfs_apis::upload::{sync_source_check, upload_source_check};
use vfs_apis::write::{next_write_step, WriteStep};

fn copy(exists: bool, t: u64, size: u64) -> FileInfo {
    FileInfo { exists, modified_time: t, size, file_id: None }
}

fn listed(name: &str, id: &str, mime: Option<&str>, edited: Option<&str>, size: Option<u64>) -> CloudItem {
    CloudItem {
        id: Some(id.to_string()),
        file_name: name.to_string(),
        parent_folder: None,
        edited_time: edited.map(|s| s.to_string()),
        size,
        mime_type: mime.map(|s| s.to_string()),
    }
}

#[test]
fn read_takes_the_newer_copy() {
    assert_eq!(choose_read_source(&copy(true, 10, 5), &copy(true, 20, 5)).unwrap(), ReadSource::Cloud);
    assert_eq!(choose_read_source(&copy(true, 30, 5), &copy(true, 20, 5)).unwrap(), ReadSource::LocalThenUpload);
    assert_eq!(choose_read_source(&copy(true, 30, 5), &copy(true, 20, 6)).unwrap(), ReadSource::LocalThenUpload);
    assert_eq!(choose_read_source(&copy(true, 20, 5), &copy(true, 20, 6)).unwrap(), ReadSource::Local);
    assert_eq!(choose_read_source(&copy(true, 10, 5), &copy(true, 20, 6)).unwrap(), ReadSource::Cloud);
    assert_eq!(choose_read_source(&copy(true, 10, 5), &copy(false, 0, 0)).unwrap(), ReadSource::Local);
    assert_eq!(choose_read_source(&copy(false, 0, 0), &copy(true, 1, 1)).unwrap(), ReadSource::Cloud);
    let e = choose_read_source(&FileInfo::absent(), &FileInfo::absent()).unwrap_err();
    assert_eq!(e.code, ErrorCode::PathNotFound);
    assert_eq!(e.message, "File not found neither locally nor in cloud");
}

#[test]
fn cloud_copy_from_lookup() {
    let found = cloud_file_info(Ok(("ID".to_string(), 7, 9)));
    assert!(found.exists);
    assert_eq!((found.modified_time, found.size, found.file_id.as_deref()), (7, 9, Some("ID")));
    let none = cloud_file_info(Err(VfsError::new(ErrorCode::PathNotFound, "x")));
    assert!(!none.exists);
    let p = FileInfo::present(3, 4);
    assert!(p.exists && p.modified_time == 3 && p.size == 4);
}

#[test]
fn remote_file_lookup() {
    let items = vec![
        listed("1.txt", "first", None, Some("2024-01-01T00:00:00Z"), Some(12)),
        listed("1.txt", "second", None, None, None),
    ];
    let (id, t, size) = remote_file(Ok(items), "1.txt").unwrap();
    assert_eq!((id.as_str(), t, size), ("first", 1704067200, 12));
    let e = remote_file(Ok(vec![]), "2.txt").unwrap_err();
    assert_eq!((e.code, e.message.as_str()), (ErrorCode::PathNotFound, "File '2.txt' not found in cloud"));
    let passed = remote_file(Err(VfsError::new(ErrorCode::NetworkError, "net")), "x").unwrap_err();
    assert_eq!(passed.message, "net");
}

#[test]
fn download_needs_status_200() {
    assert_eq!(download_content(200, Some(vec![1, 2])).unwrap(), vec![1, 2]);
    assert_eq!(download_content(200, None).unwrap(), Vec::<u8>::new());
    let e = download_content(403, Some(vec![1])).unwrap_err();
    assert_eq!((e.code, e.message.as_str()), (ErrorCode::NetworkError, "Download failed with status: 403"));
}

#[test]
fn read_file_result_constructors() {
    let s = ReadFileResult::success(vec![1, 2, 3]);
    assert_eq!((s.content.len(), s.error_code), (3, ErrorCode::Success));
    let e = ReadFileResult::error(ErrorCode::IoError, "x".to_string());
    assert!(e.content.is_empty());
    assert_eq!(e.error_code, ErrorCode::IoError);
}

#[test]
fn stat_takes_the_newer_description() {
    let local = FileMeta::local(10, 99, true, false);
    let cloud = FileMeta { exists: true, modified_time: 20, size: 5, is_file: true, is_dir: false };
    let r = choose_stat(local, cloud).unwrap();
    assert_eq!((r.size, r.modified_time), (5, 20));
    let newer_local = FileMeta::local(30, 99, true, false);
    assert_eq!(choose_stat(newer_local, cloud).unwrap().size, 99);
    let tie = FileMeta::local(20, 1, true, false);
    assert_eq!(choose_stat(tie, cloud).unwrap().size, 1);
    assert_eq!(choose_stat(FileMeta::absent(), cloud).unwrap().modified_time, 20);
    let e = choose_stat(FileMeta::absent(), FileMeta::absent()).unwrap_err();
    assert_eq!(e.code, ErrorCode::PathNotFound);
    let dir = FileMeta::local(1, 4096, false, true);
    assert_eq!(dir.size, 0);
    assert_eq!(
        choose_file_stat(dir, FileMeta::absent()),
        Some(FileStat { size: 0, is_file: false, is_dir: true, is_symlink: false })
    );
    assert_eq!(choose_file_stat(FileMeta::absent(), FileMeta::absent()), None);
}

#[test]
fn remote_metadata() {
    let items = vec![
        listed("d", "1", Some("application/vnd.huawei-apps.folder"), None, None),
        listed("f", "2", Some("text/folder-like"), Some("2024-01-01T00:00:00Z"), Some(8)),
    ];
    let d = remote_meta(Ok(vec![items[0].clone_item()]), "d").unwrap();
    assert!(d.is_dir && !d.is_file);
    let f = remote_meta(Ok(items), "f").unwrap();
    assert!(f.is_file && !f.is_dir);
    assert_eq!((f.size, f.modified_time), (8, 1704067200));
    let missing = cloud_meta(remote_meta(Ok(vec![]), "x"));
    assert!(!missing.exists);
}

trait CloneItem {
    fn clone_item(&self) -> CloudItem;
}

impl CloneItem for CloudItem {
    fn clone_item(&self) -> CloudItem {
        CloudItem {
            id: self.id.clone(),
            file_name: self.file_name.clone(),
            parent_folder: self.parent_folder.clone(),
            edited_time: self.edited_time.clone(),
            size: self.size,
            mime_type: self.mime_type.clone(),
        }
    }
}

#[test]
fn stat_result_constructors() {
    let s = StatFileResult::success(1, true, false, 2);
    assert_eq!((s.size, s.is_file, s.is_dir, s.modified_time, s.error_code), (1, true, false, 2, ErrorCode::Success));
    let e = StatFileResult::error(ErrorCode::NetworkError, "n".to_string());
    assert_eq!((e.size, e.is_file, e.modified_time), (0, false, 0));
    assert_eq!(e.error_message.as_deref(), Some("n"));
}

fn run_write(local: bool, at: bool, cloud: bool) -> Vec<WriteStep> {
    let mut steps = Vec::new();
    let mut s = WriteStep::Start;
    for _ in 0..6 {
        s = next_write_step(s, local, at, cloud);
        steps.push(s);
        if s == WriteStep::Done {
            break;
        }
    }
    steps
}

#[test]
fn write_steps_follow_the_fusion_table() {
    assert_eq!(run_write(true, true, true), vec![WriteStep::WriteLocal, WriteStep::Upload, WriteStep::Done]);
    assert_eq!(run_write(true, true, false), vec![WriteStep::WriteLocal, WriteStep::Upload, WriteStep::Done]);
    assert_eq!(run_write(false, true, true), vec![WriteStep::QueryCloud, WriteStep::Download, WriteStep::WriteLocal, WriteStep::Upload, WriteStep::Done]);
    assert_eq!(run_write(false, true, false), vec![WriteStep::QueryCloud, WriteStep::WriteLocal, WriteStep::Upload, WriteStep::Done]);
    assert_eq!(run_write(false, false, true), vec![WriteStep::WriteLocal, WriteStep::Done]);
    assert_eq!(run_write(true, false, false), vec![WriteStep::WriteLocal, WriteStep::Done]);
}

#[test]
fn removal_outcomes() {
    assert!(rm_outcome(true, false));
    assert!(rm_outcome(false, true));
    assert!(!rm_outcome(false, false));
    assert_eq!(delete_status(204).unwrap(), true);
    assert_eq!(delete_status(200).unwrap(), true);
    let e = delete_status(404).unwrap_err();
    assert_eq!(e.message, "Delete failed with status: 404");
    assert!(cloud_deleted(Ok(true)));
    assert!(!cloud_deleted(Ok(false)));
    assert!(!cloud_deleted(Err(e)));
    let id = remote_file_id(Ok(vec![listed("a", "ID-A", None, None, None)]), "a").unwrap();
    assert_eq!(id, "ID-A");
    assert_eq!(remote_file_id(Ok(vec![]), "a").unwrap_err().code, ErrorCode::PathNotFound);
}

#[test]
fn mkdir_outcomes() {
    assert_eq!(mk_dir_outcome(true, Ok("ID".to_string())).unwrap(), true);
    let no_token = mk_dir_outcome(false, Ok("ID".to_string())).unwrap_err();
    assert_eq!((no_token.code, no_token.message.as_str()), (ErrorCode::WorkspaceNotSet, "AT token has not been set"));
    let failed = mk_dir_outcome(true, Err(VfsError::new(ErrorCode::NetworkError, "x"))).unwrap_err();
    assert_eq!((failed.code, failed.message.as_str()), (ErrorCode::NetworkError, "x"));
}

#[test]
fn upload_sources_must_be_present() {
    assert!(upload_source_check(true, true, "\"/w/a\"").is_ok());
    let e = upload_source_check(true, false, "\"/w/a\"").unwrap_err();
    assert_eq!((e.code, e.message.as_str()), (ErrorCode::PathNotFound, "File not found: \"/w/a\""));
    assert!(upload_source_check(false, false, "p").is_err());
    assert!(sync_source_check(true, "p").is_ok());
    let s = sync_source_check(false, "p").unwrap_err();
    assert_eq!((s.code, s.message.as_str()), (ErrorCode::PathNotFound, "Local path not found: p"));
}

#[test]
fn adapter_folder_creation_messages() {
    assert_eq!(adapter_created_folder_id(200, Ok("F".to_string())).unwrap(), "F");
    let e = adapter_created_folder_id(500, Ok("F".to_string())).unwrap_err();
    assert_eq!(e.message, "Create folder failed, status: 500");
    let p = adapter_created_folder_id(200, Err("eof".to_string())).unwrap_err();
    assert_eq!(p.message, "Parse create folder response: eof");
}
