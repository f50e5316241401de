use vfs_apis::cloud::{
    auth_headers, create_folder_url, download_url, file_target, file_url, find_folder, find_named,
    json_headers, parent_folders, parse_rfc3339_time, search_listing, search_url, status_error,
    unsigned_seconds, upload_url, CloudItem,
};
use vfs_apis::error::{ErrorCode, VfsError};
use vfs_apis::mkdir::{create_folder_body, created_folder_id};
use vfs_apis::rcp::HttpResponse;
use vfs_apis::upload::{folder_synced, multipart_body, upload_headers, upload_outcome};
use vfs_apis::walk::{FolderWalk, WalkAction};

fn folder(name: &str, id: &str, mime: &str) -> CloudItem {
    CloudItem {
        id: Some(id.to_string()),
        file_name: name.to_string(),
        parent_folder: None,
        edited_time: None,
        size: None,
        mime_type: Some(mime.to_string()),
    }
}

const FOLDER: &str = "application/vnd.huawei-apps.folder";

#[test]
fn search_address_of_root() {
    assert_eq!(
        search_url("applicationData"),
        "https://driveapis.cloud.huawei.com.cn/drive/v1/files?fields=*&form=json&containers=applicationData&pageSize=100&queryParam=parentFolder='applicationData'"
    );
}

#[test]
fn search_address_is_percent_encoded() {
    let url = search_url("a b/ü~");
    assert!(url.ends_with("parentFolder='a%20b%2F%C3%BC~'"));
}

#[test]
fn other_addresses() {
    assert_eq!(file_url("F1"), "https://driveapis.cloud.huawei.com.cn/drive/v1/files/F1");
    assert_eq!(download_url("F1"), "https://driveapis.cloud.huawei.com.cn/drive/v1/files/F1?form=content");
    assert_eq!(create_folder_url(), "https://driveapis.cloud.huawei.com.cn/drive/v1/files?fields=*");
    assert_eq!(upload_url(), "https://driveapis.cloud.huawei.com.cn/upload/drive/v1/files?uploadType=multipart&fields=*");
}

#[test]
fn request_headers() {
    let h = json_headers("tok");
    assert_eq!(
        h,
        vec![
            ("Authorization".to_string(), "Bearer tok".to_string()),
            ("Content-Type".to_string(), "application/json".to_string()),
            ("Accept".to_string(), "application/json".to_string()),
        ]
    );
    assert_eq!(auth_headers("t"), vec![("Authorization".to_string(), "Bearer t".to_string())]);
    assert_eq!(
        upload_headers("t")[1],
        ("Content-Type".to_string(), "multipart/related;boundary=----VFS_UPLOAD_BOUNDARY_20240430".to_string())
    );
}

#[test]
fn create_folder_body_is_json() {
    let body = create_folder_body("my \"docs\"", "applicationData");
    assert_eq!(
        String::from_utf8(body).unwrap(),
        r#"{"fileName":"my \"docs\"","mimeType":"application/vnd.huawei-apps.folder","parentFolder":["applicationData"]}"#
    );
    let ctl = create_folder_body("a\nb\u{1}", "p");
    assert_eq!(
        String::from_utf8(ctl).unwrap(),
        "{\"fileName\":\"a\\nb\\u0001\",\"mimeType\":\"application/vnd.huawei-apps.folder\",\"parentFolder\":[\"p\"]}"
    );
}

#[test]
fn multipart_upload_body() {
    let body = multipart_body("1.txt", b"hello", "PID");
    let expected = "------VFS_UPLOAD_BOUNDARY_20240430\r\nContent-Type: application/json\r\n\r\n{\"fileName\":\"1.txt\",\"parentFolder\":[\"PID\"]}\r\n------VFS_UPLOAD_BOUNDARY_20240430\r\nContent-Type: application/octet-stream\r\n\r\nhello\r\n------VFS_UPLOAD_BOUNDARY_20240430--\r\n";
    assert_eq!(body, expected.as_bytes());
    let binary = multipart_body("b", &[0u8, 255, 10], "P");
    assert!(binary.windows(3).any(|w| w == [0u8, 255, 10]));
}

#[test]
fn rfc3339_times() {
    assert_eq!(parse_rfc3339_time("2024-01-01T00:00:00Z"), Some(1704067200));
    assert_eq!(parse_rfc3339_time("2024-01-01T08:00:00+08:00"), Some(1704067200));
    assert_eq!(parse_rfc3339_time("2024-01-01T00:00:00.123Z"), Some(1704067200));
    assert_eq!(parse_rfc3339_time("not a time"), None);
    assert_eq!(parse_rfc3339_time("1969-12-31T23:59:59Z"), Some(u64::MAX));
}

#[test]
fn finding_folders_and_files() {
    let items = vec![
        folder("a", "file-a", "text/plain"),
        folder("a", "dir-a", "application/x-folder-ish"),
        folder("a", "dir-a2", FOLDER),
        folder("b", "dir-b", FOLDER),
    ];
    assert_eq!(find_folder(&items, "a", false), Some("dir-a".to_string()));
    assert_eq!(find_folder(&items, "a", true), Some("dir-a2".to_string()));
    assert_eq!(find_folder(&items, "c", false), None);
    assert_eq!(find_named(&items, "a"), Some(0));
    assert_eq!(find_named(&items, "b"), Some(3));
    assert_eq!(find_named(&items, "z"), None);
}

#[test]
fn file_targets() {
    let t = file_target("qqq/zzz/1.txt").ok().unwrap();
    assert_eq!(t.folders, vec!["qqq", "zzz"]);
    assert_eq!(t.name, "1.txt");
    let e = file_target("//").err().unwrap();
    assert_eq!(e.code, ErrorCode::InvalidParameter);
    assert_eq!(e.message, "Path is empty");
    assert_eq!(parent_folders("/x/y/z.txt"), vec!["x", "y"]);
    assert!(parent_folders("/z.txt").is_empty());
    assert!(parent_folders("").is_empty());
}

#[test]
fn responses_with_bad_status() {
    let e = status_error("Failed thing, status: ", 404);
    assert_eq!((e.code, e.message.as_str()), (ErrorCode::NetworkError, "Failed thing, status: 404"));
    let s = search_listing(401, Ok(vec![]), "folder").unwrap_err();
    assert_eq!(s.message, "Failed to search folder, status: 401");
    let j = search_listing(200, Err("eof".to_string()), "file").unwrap_err();
    assert_eq!((j.code, j.message.as_str()), (ErrorCode::JsonError, "Failed to parse search result: eof"));
    let c = created_folder_id(500, Ok("x".to_string())).unwrap_err();
    assert_eq!(c.message, "Failed to create folder, status: 500");
    assert_eq!(created_folder_id(200, Ok("new".to_string())).unwrap(), "new");
    let u = upload_outcome(413, Ok(("i".to_string(), "s".to_string()))).unwrap_err();
    assert_eq!(u.message, "Upload failed with status: 413");
    let ok = upload_outcome(200, Ok(("i".to_string(), "s".to_string()))).unwrap();
    assert_eq!((ok.file_id.as_str(), ok.sha256.as_str()), ("i", "s"));
    let bad = upload_outcome(200, Err("missing field `id`".to_string())).unwrap_err();
    assert_eq!(bad.message, "Failed to parse upload response: missing field `id`");
    let f = folder_synced("dir".to_string());
    assert_eq!((f.file_id.as_str(), f.sha256.as_str()), ("dir", ""));
}

#[test]
fn body_text_is_lossy_utf8() {
    let r = HttpResponse { status_code: 200, body: Some(vec![b'o', b'k', 0xff]), headers: Default::default() };
    assert_eq!(r.body_as_string(), Some("ok\u{fffd}".to_string()));
    let n = HttpResponse { status_code: 204, body: None, headers: Default::default() };
    assert_eq!(n.body_as_string(), None);
}

#[test]
fn walk_descends_and_fails_on_missing_folder() {
    let mut walk = FolderWalk::new(vec!["a".to_string(), "b".to_string()], false, false);
    match walk.next_action() {
        WalkAction::Search { parent_id } => assert_eq!(parent_id, "applicationData"),
        _ => panic!("expected a search of the root"),
    }
    walk.on_listing(Ok(vec![folder("a", "idA", FOLDER)]));
    match walk.next_action() {
        WalkAction::Search { parent_id } => assert_eq!(parent_id, "idA"),
        _ => panic!("expected a search of a"),
    }
    walk.on_listing(Ok(vec![folder("c", "idC", FOLDER)]));
    match walk.next_action() {
        WalkAction::Failed { error } => {
            assert_eq!(error.code, ErrorCode::PathNotFound);
            assert_eq!(error.message, "Folder 'b' not found");
        }
        _ => panic!("expected failure"),
    }
}

#[test]
fn walk_creates_missing_folders() {
    let mut walk = FolderWalk::new(vec!["a".to_string(), "b".to_string()], true, false);
    walk.on_listing(Err(VfsError::new(ErrorCode::NetworkError, "down")));
    match walk.next_action() {
        WalkAction::Create { name, parent_id } => {
            assert_eq!(name, "a");
            assert_eq!(parent_id, "applicationData");
        }
        _ => panic!("expected a creation"),
    }
    walk.on_created(Ok("idA".to_string()));
    walk.on_listing(Ok(vec![folder("b", "idB", "application/folder")]));
    match walk.next_action() {
        WalkAction::Arrived { folder_id } => assert_eq!(folder_id, "idB"),
        _ => panic!("expected arrival"),
    }
}

#[test]
fn walk_of_no_folders_is_at_root() {
    let walk = FolderWalk::new(vec![], false, true);
    match walk.next_action() {
        WalkAction::Arrived { folder_id } => assert_eq!(folder_id, "applicationData"),
        _ => panic!("expected arrival at the root"),
    }
}

#[test]
fn walk_reports_listing_error_and_create_error() {
    let mut walk = FolderWalk::new(vec!["a".to_string()], false, false);
    walk.on_listing(Err(VfsError::new(ErrorCode::JsonError, "Failed to parse search result: x")));
    match walk.next_action() {
        WalkAction::Failed { error } => assert_eq!(error.code, ErrorCode::JsonError),
        _ => panic!("expected failure"),
    }
    let mut create = FolderWalk::new(vec!["a".to_string()], true, false);
    create.on_listing(Ok(vec![]));
    create.on_created(Err(VfsError::new(ErrorCode::NetworkError, "Failed to create folder, status: 500")));
    match create.next_action() {
        WalkAction::Failed { error } => assert_eq!(error.message, "Failed to create folder, status: 500"),
        _ => panic!("expected failure"),
    }
}

#[test]
fn parsed_seconds_become_unsigned() {
    assert_eq!(unsigned_seconds(Some(1704067200)), Some(1704067200));
    assert_eq!(unsigned_seconds(Some(-1)), Some(u64::MAX));
    assert_eq!(unsigned_seconds(None), None);
}
