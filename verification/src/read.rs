//! Reading a file: the local copy and the cloud copy are compared and the
//! newer one is read.
use vstd::prelude::*;
use crate::cloud::{edited_seconds, edit_time_of, first_named, find_named, item_views, status_error, CloudItem};
use crate::error::{ErrorCode, VfsError, VfsResult};
use crate::text::{concat, signed_decimal};

verus! {

/// The content of a file that was read.
#[derive(Debug)]
pub struct ReadFileResult {
    pub content: Vec<u8>,
    pub error_code: ErrorCode,
    pub error_message: Option<String>,
}

impl ReadFileResult {
    pub fn success(content: Vec<u8>) -> (r: ReadFileResult)
        ensures
            r.content@ == content@,
            r.error_code == ErrorCode::Success,
            r.error_message is None,
    {
        ReadFileResult { content, error_code: ErrorCode::Success, error_message: None }
    }

    pub fn error(code: ErrorCode, message: String) -> (r: ReadFileResult)
        ensures
            r.content@.len() == 0,
            r.error_code == code,
            r.error_message == Some(message),
    {
        ReadFileResult { content: Vec::new(), error_code: code, error_message: Some(message) }
    }
}

/// What is known of one copy of a file.
#[derive(Debug)]
pub struct FileInfo {
    pub exists: bool,
    pub modified_time: u64,
    pub size: u64,
    pub file_id: Option<String>,
}

impl FileInfo {
    /// A copy that does not exist.
    pub fn absent() -> (r: FileInfo)
        ensures
            !r.exists,
            r.modified_time == 0,
            r.size == 0,
            r.file_id is None,
    {
        FileInfo { exists: false, modified_time: 0, size: 0, file_id: None }
    }

    /// A local copy with its modification time and size.
    pub fn present(modified_time: u64, size: u64) -> (r: FileInfo)
        ensures
            r.exists,
            r.modified_time == modified_time,
            r.size == size,
            r.file_id is None,
    {
        FileInfo { exists: true, modified_time, size, file_id: None }
    }
}

/// The message of a file missing from its cloud folder.
pub open spec fn file_missing_message(name: Seq<char>) -> Seq<char> {
    "File '"@ + name + "' not found in cloud"@
}

/// The id, edit time and size of the file `name` in the listing of its
/// folder: the first item of that name, its id ("" if absent), its edit
/// time in seconds (0 if unknown) and size (0 if unknown); `PathNotFound`
/// when no item has that name; the listing's error when it failed.
pub fn remote_file(listing: VfsResult<Vec<CloudItem>>, name: &str) -> (r: VfsResult<(String, u64, u64)>)
    ensures
        match listing {
            Err(e) => r == Err::<(String, u64, u64), VfsError>(e),
            Ok(items) => match first_named(item_views(items@), name@) {
                Some(i) => (r matches Ok(t) && Some(t.0@) == (match item_views(items@)[i].id {
                    Some(id) => Some(id),
                    None => Some(Seq::<char>::empty()),
                }) && t.1 == edited_seconds(item_views(items@)[i].edited_time) && t.2 == (match item_views(items@)[i].size {
                    Some(n) => n,
                    None => 0,
                })),
                None => (r matches Err(e) && e.code == ErrorCode::PathNotFound
                    && e.message@ == file_missing_message(name@)),
            },
        },
{
    let items = listing?;
    proof {
        crate::cloud::lemma_first_named_found(item_views(items@), name@);
    }
    match find_named(&items, name) {
        Some(i) => {
            let it = &items[i];
            proof {
                assert(item_views(items@)[i as int] == it@);
            }
            let id = match &it.id {
                Some(x) => x.clone(),
                None => String::new(),
            };
            let size = match it.size {
                Some(n) => n,
                None => 0,
            };
            Ok((id, edit_time_of(&it.edited_time), size))
        },
        None => {
            let head = concat("File '", name);
            let message = concat(head.as_str(), "' not found in cloud");
            Err(VfsError { code: ErrorCode::PathNotFound, message })
        },
    }
}

/// What is known of the cloud copy after looking it up: a failed lookup
/// means there is no cloud copy.
pub fn cloud_file_info(found: VfsResult<(String, u64, u64)>) -> (r: FileInfo)
    ensures
        match found {
            Ok(t) => r.exists && r.modified_time == t.1 && r.size == t.2 && r.file_id == Some(t.0),
            Err(_) => !r.exists && r.modified_time == 0 && r.size == 0 && r.file_id is None,
        },
{
    match found {
        Ok((id, modified_time, size)) => FileInfo { exists: true, modified_time, size, file_id: Some(id) },
        Err(_) => FileInfo::absent(),
    }
}

/// Which copy a read takes.
#[derive(Debug, Clone, Copy, PartialEq, Eq, Structural)]
pub enum ReadSource {
    /// Read the local copy.
    Local,
    /// Read the local copy, and upload it to the cloud in the background.
    LocalThenUpload,
    /// Download the cloud copy, store it locally, and return it.
    Cloud,
}

/// The fusion rule of reads.  Both copies: the modification times decide;
/// a newer cloud copy is read (and stored locally), a strictly newer local
/// copy is read and then uploaded to bring the cloud up to date, and on
/// equal times the local copy is read.  One copy: that one.  Neither: no
/// source.
pub open spec fn read_source(local: FileInfo, cloud: FileInfo) -> Option<ReadSource> {
    if local.exists && cloud.exists {
        if cloud.modified_time > local.modified_time {
            Some(ReadSource::Cloud)
        } else if local.modified_time > cloud.modified_time {
            Some(ReadSource::LocalThenUpload)
        } else {
            Some(ReadSource::Local)
        }
    } else if local.exists {
        Some(ReadSource::Local)
    } else if cloud.exists {
        Some(ReadSource::Cloud)
    } else {
        None
    }
}

/// Chooses the copy to read; `PathNotFound` when the file exists nowhere.
pub fn choose_read_source(local: &FileInfo, cloud: &FileInfo) -> (r: VfsResult<ReadSource>)
    ensures
        match read_source(*local, *cloud) {
            Some(s) => r == Ok::<ReadSource, VfsError>(s),
            None => (r matches Err(e) && e.code == ErrorCode::PathNotFound
                && e.message@ == "File not found neither locally nor in cloud"@),
        },
{
    if local.exists && cloud.exists {
        if cloud.modified_time > local.modified_time {
            Ok(ReadSource::Cloud)
        } else if local.modified_time > cloud.modified_time {
            Ok(ReadSource::LocalThenUpload)
        } else {
            Ok(ReadSource::Local)
        }
    } else if local.exists {
        Ok(ReadSource::Local)
    } else if cloud.exists {
        Ok(ReadSource::Cloud)
    } else {
        Err(VfsError::new(ErrorCode::PathNotFound, "File not found neither locally nor in cloud"))
    }
}

/// The content a download request gave: its body (empty when it has none)
/// when the status is 200, a `NetworkError` otherwise.
pub fn download_content(status: i32, body: Option<Vec<u8>>) -> (r: VfsResult<Vec<u8>>)
    ensures
        status == 200 ==> (r matches Ok(c) && c@ == match body {
            Some(b) => b@,
            None => Seq::<u8>::empty(),
        }),
        status != 200 ==> (r matches Err(e) && e.code == ErrorCode::NetworkError
            && e.message@ == "Download failed with status: "@ + signed_decimal(status as int)),
{
    if status != 200 {
        return Err(status_error("Download failed with status: ", status));
    }
    match body {
        Some(b) => Ok(b),
        None => Ok(Vec::new()),
    }
}

/// When both copies exist, the copy read is the newer one, the local one
/// on equal times; the outdated side is brought up to date (the cloud copy
/// is stored locally when read, a newer local copy is uploaded).
pub proof fn lemma_read_takes_newer(local: FileInfo, cloud: FileInfo)
    requires
        local.exists,
        cloud.exists,
    ensures
        read_source(local, cloud) == Some(ReadSource::Cloud) <==> cloud.modified_time > local.modified_time,
        read_source(local, cloud) == Some(ReadSource::LocalThenUpload) <==> local.modified_time > cloud.modified_time,
        read_source(local, cloud) == Some(ReadSource::Local) <==> local.modified_time == cloud.modified_time,
{
}

/// A copy that exists alone is the copy read: the local one when only it
/// exists, the cloud one when only it exists; a file found nowhere has no
/// source.
pub proof fn lemma_read_single_copy(local: FileInfo, cloud: FileInfo)
    ensures
        local.exists && !cloud.exists ==> read_source(local, cloud) == Some(ReadSource::Local),
        !local.exists && cloud.exists ==> read_source(local, cloud) == Some(ReadSource::Cloud),
        !local.exists && !cloud.exists ==> read_source(local, cloud) is None,
{
}

} // verus!
