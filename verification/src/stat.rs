//! File metadata: the newer of the local and the cloud description.
use vstd::prelude::*;
use crate::cloud::{edited_seconds, edit_time_of, first_named, find_named, item_views, mime_is_folder, CloudItem};
use crate::error::{ErrorCode, VfsError, VfsResult};
use crate::filesystem::FileStat;
use crate::read::file_missing_message;
use crate::text::{concat, same_text};

verus! {

/// The metadata returned for a path.
#[derive(Debug)]
pub struct StatFileResult {
    pub size: u64,
    pub is_file: bool,
    pub is_dir: bool,
    pub modified_time: u64,
    pub error_code: ErrorCode,
    pub error_message: Option<String>,
}

impl StatFileResult {
    pub fn success(size: u64, is_file: bool, is_dir: bool, modified_time: u64) -> (r: StatFileResult)
        ensures
            r.size == size,
            r.is_file == is_file,
            r.is_dir == is_dir,
            r.modified_time == modified_time,
            r.error_code == ErrorCode::Success,
            r.error_message is None,
    {
        StatFileResult { size, is_file, is_dir, modified_time, error_code: ErrorCode::Success, error_message: None }
    }

    pub fn error(code: ErrorCode, message: String) -> (r: StatFileResult)
        ensures
            r.size == 0,
            !r.is_file,
            !r.is_dir,
            r.modified_time == 0,
            r.error_code == code,
            r.error_message == Some(message),
    {
        StatFileResult { size: 0, is_file: false, is_dir: false, modified_time: 0, error_code: code, error_message: Some(message) }
    }
}

/// What is known of one copy of a path.
#[derive(Debug, Clone, Copy, PartialEq, Eq, Structural)]
pub struct FileMeta {
    pub exists: bool,
    pub modified_time: u64,
    pub size: u64,
    pub is_file: bool,
    pub is_dir: bool,
}

impl FileMeta {
    /// A copy that does not exist.
    pub fn absent() -> (r: FileMeta)
        ensures
            r == (FileMeta { exists: false, modified_time: 0, size: 0, is_file: false, is_dir: false }),
    {
        FileMeta { exists: false, modified_time: 0, size: 0, is_file: false, is_dir: false }
    }

    /// The local copy as the file system describes it: a directory counts as size 0.
    pub fn local(modified_time: u64, len: u64, is_file: bool, is_dir: bool) -> (r: FileMeta)
        ensures
            r == (FileMeta { exists: true, modified_time, size: if is_dir { 0 } else { len }, is_file, is_dir }),
    {
        FileMeta { exists: true, modified_time, size: if is_dir { 0 } else { len }, is_file, is_dir }
    }
}

/// The metadata of the file `name` in the listing of its folder: the first
/// item of that name; a directory exactly when its MIME type is the folder
/// type, a file otherwise; `PathNotFound` when no item has that name; the
/// listing's error when it failed.
pub fn remote_meta(listing: VfsResult<Vec<CloudItem>>, name: &str) -> (r: VfsResult<FileMeta>)
    ensures
        match listing {
            Err(e) => r == Err::<FileMeta, VfsError>(e),
            Ok(items) => match first_named(item_views(items@), name@) {
                Some(i) => r == Ok::<FileMeta, VfsError>(FileMeta {
                    exists: true,
                    modified_time: edited_seconds(item_views(items@)[i].edited_time),
                    size: match item_views(items@)[i].size {
                        Some(n) => n,
                        None => 0,
                    },
                    is_file: !mime_is_folder(item_views(items@)[i].mime_type, true),
                    is_dir: mime_is_folder(item_views(items@)[i].mime_type, true),
                }),
                None => (r matches Err(e) && e.code == ErrorCode::PathNotFound
                    && e.message@ == file_missing_message(name@)),
            },
        },
{
    let items = listing?;
    proof {
        crate::cloud::lemma_first_named_found(item_views(items@), name@);
    }
    match find_named(&items, name) {
        Some(i) => {
            let it = &items[i];
            proof {
                assert(item_views(items@)[i as int] == it@);
            }
            let is_dir = match &it.mime_type {
                Some(m) => same_text(m.as_str(), "application/vnd.huawei-apps.folder"),
                None => false,
            };
            let size = match it.size {
                Some(n) => n,
                None => 0,
            };
            Ok(FileMeta { exists: true, modified_time: edit_time_of(&it.edited_time), size, is_file: !is_dir, is_dir })
        },
        None => {
            let head = concat("File '", name);
            let message = concat(head.as_str(), "' not found in cloud");
            Err(VfsError { code: ErrorCode::PathNotFound, message })
        },
    }
}

/// The cloud copy after looking it up: a failed lookup means none.
pub fn cloud_meta(found: VfsResult<FileMeta>) -> (r: FileMeta)
    ensures
        match found {
            Ok(m) => r == m,
            Err(_) => !r.exists && r.modified_time == 0 && r.size == 0 && !r.is_file && !r.is_dir,
        },
{
    match found {
        Ok(m) => m,
        Err(_) => FileMeta::absent(),
    }
}

/// The fusion rule of metadata: of two copies the newer is described, the
/// local one when not older; one copy describes itself; none gives nothing.
pub open spec fn chosen_meta(local: FileMeta, cloud: FileMeta) -> Option<FileMeta> {
    if local.exists && cloud.exists {
        if local.modified_time >= cloud.modified_time {
            Some(local)
        } else {
            Some(cloud)
        }
    } else if local.exists {
        Some(local)
    } else if cloud.exists {
        Some(cloud)
    } else {
        None
    }
}

/// The metadata of a path from its two copies; `PathNotFound` when neither exists.
pub fn choose_stat(local: FileMeta, cloud: FileMeta) -> (r: VfsResult<StatFileResult>)
    ensures
        match chosen_meta(local, cloud) {
            Some(m) => (r matches Ok(s) && s.size == m.size && s.is_file == m.is_file && s.is_dir == m.is_dir
                && s.modified_time == m.modified_time && s.error_code == ErrorCode::Success
                && s.error_message is None),
            None => (r matches Err(e) && e.code == ErrorCode::PathNotFound
                && e.message@ == "File not found neither locally nor in cloud"@),
        },
{
    let m = if local.exists && cloud.exists {
        if local.modified_time >= cloud.modified_time {
            local
        } else {
            cloud
        }
    } else if local.exists {
        local
    } else if cloud.exists {
        cloud
    } else {
        return Err(VfsError::new(ErrorCode::PathNotFound, "File not found neither locally nor in cloud"));
    };
    Ok(StatFileResult::success(m.size, m.is_file, m.is_dir, m.modified_time))
}

/// The entry metadata of a path from its two copies, by the same rule;
/// `None` when neither exists.  Symbolic links are not reported.
pub fn choose_file_stat(local: FileMeta, cloud: FileMeta) -> (r: Option<FileStat>)
    ensures
        match chosen_meta(local, cloud) {
            Some(m) => r == Some(FileStat { size: m.size, is_file: m.is_file, is_dir: m.is_dir, is_symlink: false }),
            None => r is None,
        },
{
    let m = if local.exists && cloud.exists {
        if local.modified_time >= cloud.modified_time {
            local
        } else {
            cloud
        }
    } else if local.exists {
        local
    } else if cloud.exists {
        cloud
    } else {
        return None;
    };
    Some(FileStat { size: m.size, is_file: m.is_file, is_dir: m.is_dir, is_symlink: false })
}

/// Metadata comes from the newer copy: when both exist, the description
/// chosen has the larger modification time.
pub proof fn lemma_stat_takes_newer(local: FileMeta, cloud: FileMeta)
    requires
        local.exists,
        cloud.exists,
    ensures
        chosen_meta(local, cloud) matches Some(m) && m.modified_time >= local.modified_time
            && m.modified_time >= cloud.modified_time,
{
}

/// A copy that exists alone describes itself: a path found only locally
/// reports the local copy's size, kind and time, one found only in the
/// cloud the cloud copy's; when both exist the report is one of the two
/// copies, the local one unless the cloud copy is strictly newer; a path
/// found nowhere has no report.
pub proof fn lemma_stat_reports_a_copy(local: FileMeta, cloud: FileMeta)
    ensures
        local.exists && !cloud.exists ==> chosen_meta(local, cloud) == Some(local),
        !local.exists && cloud.exists ==> chosen_meta(local, cloud) == Some(cloud),
        local.exists && cloud.exists && local.modified_time >= cloud.modified_time
            ==> chosen_meta(local, cloud) == Some(local),
        local.exists && cloud.exists && local.modified_time < cloud.modified_time
            ==> chosen_meta(local, cloud) == Some(cloud),
        !local.exists && !cloud.exists ==> chosen_meta(local, cloud) is None,
{
}

} // verus!
