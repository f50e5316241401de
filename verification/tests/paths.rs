use vfs_apis::cloud::{cloud_parts, file_target, parent_folders};
use vfs_apis::error::ErrorCode;
use vfs_apis::text::{
    contains_text, i32_text, replace_char_with, split_segments, trim_char, trim_end_char,
    trim_start_char, u64_text,
};
use vfs_apis::upload::upload_name;
use vfs_apis::workspace::{
    build_cloud_path, clear_workspace, get_base_path, get_workspace, is_workspace_set, join_path,
    join_workspace, resolve_path, set_base_path, set_workspace, WorkspaceStore,
};

#[test]
fn trimming_characters() {
    assert_eq!(trim_start_char("//a/b/", '/'), "a/b/");
    assert_eq!(trim_end_char("//a/b//", '/'), "//a/b");
    assert_eq!(trim_char("//a/b//", '/'), "a/b");
    assert_eq!(trim_char("///", '/'), "");
    assert_eq!(trim_start_char("", '/'), "");
}

#[test]
fn splitting_into_segments() {
    assert_eq!(split_segments("/a//b/c/"), vec!["a", "b", "c"]);
    assert_eq!(split_segments(""), Vec::<String>::new());
    assert_eq!(split_segments("///"), Vec::<String>::new());
    assert_eq!(split_segments("héllo/wörld"), vec!["héllo", "wörld"]);
}

#[test]
fn text_helpers() {
    assert!(contains_text("application/vnd.huawei-apps.folder", "folder"));
    assert!(!contains_text("text/plain", "folder"));
    assert!(contains_text("abc", ""));
    assert_eq!(replace_char_with("2024-01-01T00:00:00Z", 'Z', "+00:00"), "2024-01-01T00:00:00+00:00");
    assert_eq!(u64_text(0), "0");
    assert_eq!(u64_text(1234567890), "1234567890");
    assert_eq!(u64_text(u64::MAX), "18446744073709551615");
    assert_eq!(i32_text(-404), "-404");
    assert_eq!(i32_text(i32::MIN), "-2147483648");
    assert_eq!(i32_text(200), "200");
}

#[test]
fn joining_paths_like_unix() {
    assert_eq!(join_path("/base", "x"), "/base/x");
    assert_eq!(join_path("/base/", "x"), "/base/x");
    assert_eq!(join_path("", "x"), "x");
    assert_eq!(join_path("/base", "/etc"), "/etc");
    assert_eq!(join_path("/base", ""), "/base/");
}

#[test]
fn join_workspace_under_base() {
    assert_eq!(join_workspace("/data", "/mywork", "abc/cde"), "/data/mywork/abc/cde");
    assert_eq!(join_workspace("/data", "/mywork", ""), "/data/mywork");
    assert_eq!(join_workspace("", "/mywork", "f.txt"), "mywork/f.txt");
}

#[test]
fn resolve_requires_workspace() {
    let store = WorkspaceStore::new();
    let e = resolve_path(&store, "/a").unwrap_err();
    assert_eq!(e.code, ErrorCode::WorkspaceNotSet);
    assert_eq!(build_cloud_path(&store, "/a/b").unwrap(), "a/b");
    assert_eq!(build_cloud_path(&store, "//a/").unwrap(), "a/");
    assert_eq!(get_workspace(&store).unwrap_err().message, "Workspace has not been set");
    assert_eq!(get_base_path(&store).unwrap_err().message, "Base path has not been set");
}

#[test]
fn resolve_after_setting_workspace() {
    let mut store = WorkspaceStore::new();
    set_base_path(&mut store, "/data/storage/el2/base/files");
    let dir = set_workspace(&mut store, "/mywork");
    assert_eq!(dir, "/data/storage/el2/base/files/mywork");
    assert!(is_workspace_set(&store));
    assert_eq!(get_workspace(&store).unwrap(), "/mywork");
    assert_eq!(
        resolve_path(&store, "abc/cde").unwrap(),
        "/data/storage/el2/base/files/mywork/abc/cde"
    );
    assert_eq!(
        resolve_path(&store, "///abc/cde").unwrap(),
        resolve_path(&store, "abc/cde").unwrap()
    );
    assert_eq!(resolve_path(&store, "/").unwrap(), "/data/storage/el2/base/files/mywork");
    clear_workspace(&mut store);
    assert!(!is_workspace_set(&store));
    assert_eq!(get_base_path(&store).unwrap(), "/data/storage/el2/base/files");
}

#[test]
fn resolve_without_base_path() {
    let mut store = WorkspaceStore::new();
    let dir = set_workspace(&mut store, "/xxx/yyy");
    assert_eq!(dir, "/xxx/yyy");
    assert_eq!(resolve_path(&store, "/qqq").unwrap(), "/xxx/yyy/qqq");
    assert_eq!(resolve_path(&store, "").unwrap(), "/xxx/yyy");
}

#[test]
fn cloud_path_prepends_workspace() {
    let mut store = WorkspaceStore::new();
    set_workspace(&mut store, "/qqq");
    assert_eq!(build_cloud_path(&store, "/zzz/1.txt").unwrap(), "qqq/zzz/1.txt");
    assert_eq!(build_cloud_path(&store, "/").unwrap(), "qqq");
    set_workspace(&mut store, "/");
    assert_eq!(build_cloud_path(&store, "/zzz/1.txt/").unwrap(), "zzz/1.txt");
    assert_eq!(build_cloud_path(&store, "").unwrap(), "");
}

#[test]
fn local_and_cloud_paths_align() {
    let mut store = WorkspaceStore::new();
    set_base_path(&mut store, "/base");
    set_workspace(&mut store, "/xxx");
    let local = resolve_path(&store, "/yyy/1.txt").unwrap();
    let cloud = cloud_parts("/yyy/1.txt");
    assert_eq!(cloud, vec!["yyy", "1.txt"]);
    let mut expected = split_segments("/base/xxx");
    expected.extend(cloud.iter().cloned());
    assert_eq!(split_segments(&local), expected);
    let target = file_target("/yyy/1.txt").unwrap();
    assert_eq!(target.folders, parent_folders("/yyy/1.txt"));
    assert_eq!(target.name, upload_name(&local));
}

#[test]
fn upload_names_follow_path_file_name() {
    assert_eq!(upload_name("/a/b/report.pdf"), "report.pdf");
    assert_eq!(upload_name("/a/b/"), "b");
    assert_eq!(upload_name("/a/b/."), "b");
    assert_eq!(upload_name("/a/.."), "unknown");
    assert_eq!(upload_name("/"), "unknown");
    assert_eq!(upload_name(""), "unknown");
}
