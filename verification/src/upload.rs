//! Uploading a local file, or making a local folder, in the cloud.
use vstd::prelude::*;
use vstd::string::*;
use vstd::utf8::encode_utf8;
use crate::cloud::{json_quoted, json_string, pair_views, bearer, status_error};
use crate::error::{ErrorCode, VfsError, VfsResult};
use crate::cloud::{cloud_location, parent_location};
use crate::workspace::{lemma_paths_align, resolved, WorkspaceView};
use crate::text::{concat, segments, signed_decimal, split_segments, views};

verus! {

/// The boundary between the parts of an upload.
pub open spec fn boundary() -> Seq<char> {
    "----VFS_UPLOAD_BOUNDARY_20240430"@
}

/// The JSON describing an uploaded file: its name and its folder.
pub open spec fn upload_metadata_json(name: Seq<char>, parent: Seq<char>) -> Seq<char> {
    "{\"fileName\":"@ + json_quoted(name) + ",\"parentFolder\":["@ + json_quoted(parent) + "]}"@
}

/// The text of an upload up to the file content.
pub open spec fn multipart_head(metadata: Seq<char>) -> Seq<char> {
    "--"@ + boundary() + "\r\n"@ + "Content-Type: application/json\r\n\r\n"@ + metadata + "\r\n"@ + "--"@
        + boundary() + "\r\n"@ + "Content-Type: application/octet-stream\r\n\r\n"@
}

/// The text of an upload after the file content.
pub open spec fn multipart_tail() -> Seq<char> {
    "\r\n"@ + "--"@ + boundary() + "--\r\n"@
}

/// The body of a multipart upload of `content` as file `name` in folder
/// `parent`: the metadata part, then the content part, then the closing
/// boundary.
pub open spec fn multipart_bytes(name: Seq<char>, parent: Seq<char>, content: Seq<u8>) -> Seq<u8> {
    encode_utf8(multipart_head(upload_metadata_json(name, parent))) + content + encode_utf8(multipart_tail())
}

/// Builds the body of a multipart upload.
pub fn multipart_body(file_name: &str, content: &[u8], parent_folder_id: &str) -> (r: Vec<u8>)
    ensures
        r@ == multipart_bytes(file_name@, parent_folder_id@, content@),
{
    let qn = json_string(file_name);
    let qp = json_string(parent_folder_id);
    let m1 = concat("{\"fileName\":", qn.as_str());
    let m2 = concat(m1.as_str(), ",\"parentFolder\":[");
    let m3 = concat(m2.as_str(), qp.as_str());
    let metadata = concat(m3.as_str(), "]}");
    let h1 = concat("--", "----VFS_UPLOAD_BOUNDARY_20240430");
    let h2 = concat(h1.as_str(), "\r\n");
    let h3 = concat(h2.as_str(), "Content-Type: application/json\r\n\r\n");
    let h4 = concat(h3.as_str(), metadata.as_str());
    let h5 = concat(h4.as_str(), "\r\n");
    let h6 = concat(h5.as_str(), "--");
    let h7 = concat(h6.as_str(), "----VFS_UPLOAD_BOUNDARY_20240430");
    let h8 = concat(h7.as_str(), "\r\n");
    let head = concat(h8.as_str(), "Content-Type: application/octet-stream\r\n\r\n");
    let t1 = concat("\r\n", "--");
    let t2 = concat(t1.as_str(), "----VFS_UPLOAD_BOUNDARY_20240430");
    let tail = concat(t2.as_str(), "--\r\n");
    let mut body = head.as_str().as_bytes_vec();
    let mut middle = vstd::slice::slice_to_vec(content);
    let mut end = tail.as_str().as_bytes_vec();
    body.append(&mut middle);
    body.append(&mut end);
    body
}

/// Headers of an upload with the access token.
pub fn upload_headers(at: &str) -> (r: Vec<(String, String)>)
    ensures
        pair_views(r@) == seq![
            ("Authorization"@, bearer(at@)),
            ("Content-Type"@, "multipart/related;boundary="@ + boundary()),
        ],
{
    let token = concat("Bearer ", at);
    let kind = concat("multipart/related;boundary=", "----VFS_UPLOAD_BOUNDARY_20240430");
    let mut r: Vec<(String, String)> = Vec::new();
    r.push(("Authorization".to_owned(), token));
    r.push(("Content-Type".to_owned(), kind));
    proof {
        assert(pair_views(r@) =~= seq![
            ("Authorization"@, bearer(at@)),
            ("Content-Type"@, "multipart/related;boundary="@ + boundary()),
        ]);
    }
    r
}

/// What the cloud reports for a synced file or folder.
#[derive(Debug)]
pub struct SyncResult {
    pub file_id: String,
    /// Empty for a folder.
    pub sha256: String,
}

/// The outcome of an upload request: a `NetworkError` when the status is not
/// 200, a `JsonError` when the body did not parse, the reported id and
/// digest otherwise.
pub fn upload_outcome(status: i32, parsed: Result<(String, String), String>) -> (r: VfsResult<SyncResult>)
    ensures
        status != 200 ==> (r matches Err(e) && e.code == ErrorCode::NetworkError
            && e.message@ == "Upload failed with status: "@ + signed_decimal(status as int)),
        status == 200 ==> match parsed {
            Ok(p) => (r matches Ok(s) && s.file_id == p.0 && s.sha256 == p.1),
            Err(m) => (r matches Err(e) && e.code == ErrorCode::JsonError
                && e.message@ == "Failed to parse upload response: "@ + m@),
        },
{
    if status != 200 {
        return Err(status_error("Upload failed with status: ", status));
    }
    match parsed {
        Ok((file_id, sha256)) => Ok(SyncResult { file_id, sha256 }),
        Err(m) => Err(crate::cloud::parse_error(ErrorCode::JsonError, "Failed to parse upload response: ", m.as_str())),
    }
}

/// A synced folder: its id and no digest.
pub fn folder_synced(folder_id: String) -> (r: SyncResult)
    ensures
        r.file_id == folder_id,
        r.sha256@.len() == 0,
{
    SyncResult { file_id: folder_id, sha256: String::new() }
}

/// The last non-`.` segment of a path, as a path's file name: absent when
/// there is none or it is `..`.
pub open spec fn last_named(parts: Seq<Seq<char>>) -> Option<Seq<char>>
    decreases parts.len(),
{
    if parts.len() == 0 {
        None
    } else if parts.last() == seq!['.'] {
        last_named(parts.drop_last())
    } else {
        Some(parts.last())
    }
}

/// The file name of a path (`Path::file_name`): its last component, absent
/// for a path ending in `..` or without a named component.
pub open spec fn path_file_name(path: Seq<char>) -> Option<Seq<char>> {
    match last_named(segments(path)) {
        Some(n) => if n == seq!['.', '.'] {
            None
        } else {
            Some(n)
        },
        None => None,
    }
}

fn is_dot(s: &String) -> (b: bool)
    ensures
        b == (s@ == seq!['.']),
{
    proof {
        reveal_strlit(".");
        assert(".".view() =~= seq!['.']);
    }
    crate::text::same_text(s.as_str(), ".")
}

/// The name under which a local file is uploaded: its file name, or
/// `unknown` when the path has none.
pub fn upload_name(path: &str) -> (r: String)
    ensures
        r@ == match path_file_name(path@) {
            Some(n) => n,
            None => "unknown"@,
        },
{
    let parts = split_segments(path);
    let mut i = parts.len();
    proof {
        assert(views(parts@).take(parts@.len() as int) =~= views(parts@));
    }
    while i > 0 && is_dot(&parts[i - 1])
        invariant
            i <= parts@.len(),
            views(parts@) == segments(path@),
            last_named(segments(path@)) == last_named(views(parts@).take(i as int)),
        decreases i,
    {
        proof {
            assert(views(parts@).take(i as int).last() == parts@[i - 1]@);
            assert(views(parts@).take(i as int).drop_last() =~= views(parts@).take(i - 1));
        }
        i = i - 1;
    }
    proof {
        reveal_strlit("unknown");
        reveal_strlit("..");
        assert("..".view() =~= seq!['.', '.']);
        assert(views(parts@).take(0) =~= Seq::<Seq<char>>::empty());
    }
    if i == 0 {
        return "unknown".to_owned();
    }
    proof {
        assert(views(parts@).take(i as int).last() == parts@[i - 1]@);
    }
    if crate::text::same_text(parts[i - 1].as_str(), "..") {
        return "unknown".to_owned();
    }
    parts[i - 1].clone()
}

/// Whether a local path can be uploaded: it must be present and be a file;
/// `PathNotFound` naming the path as shown otherwise.
pub fn upload_source_check(present: bool, is_file: bool, shown_path: &str) -> (r: VfsResult<()>)
    ensures
        r is Ok <==> present && is_file,
        r matches Err(e) ==> e.code == ErrorCode::PathNotFound && e.message@ == "File not found: "@ + shown_path@,
{
    if !present || !is_file {
        return Err(VfsError { code: ErrorCode::PathNotFound, message: concat("File not found: ", shown_path) });
    }
    Ok(())
}

/// Whether a local path can be synced: it must be present; `PathNotFound`
/// naming the path as shown otherwise.
pub fn sync_source_check(present: bool, shown_path: &str) -> (r: VfsResult<()>)
    ensures
        r is Ok <==> present,
        r matches Err(e) ==> e.code == ErrorCode::PathNotFound && e.message@ == "Local path not found: "@ + shown_path@,
{
    if !present {
        return Err(VfsError { code: ErrorCode::PathNotFound, message: concat("Local path not found: ", shown_path) });
    }
    Ok(())
}

/// Path alignment, cloud side: an upload of the relative path `relative`
/// puts the file, named after its local path, into the folders that a
/// lookup of `relative` walks, under the name that lookup searches for;
/// both are the path's cloud location.  (A path whose last segment is `.`
/// or `..` has no file name and is left out.)
pub proof fn lemma_upload_meets_lookup(v: WorkspaceView, relative: Seq<char>)
    requires
        v.workspace is Some,
        cloud_location(relative).len() > 0,
        cloud_location(relative).last() != seq!['.'],
        cloud_location(relative).last() != seq!['.', '.'],
    ensures
        path_file_name(resolved(v, relative)->0) == Some(cloud_location(relative).last()),
        parent_location(relative).push(cloud_location(relative).last()) == cloud_location(relative),
{
    lemma_paths_align(v, relative);
    let local = segments(resolved(v, relative)->0);
    let l = cloud_location(relative);
    assert(local.last() == l.last());
    assert(local.len() > 0);
    assert(parent_location(relative).push(l.last()) =~= l);
}

} // verus!
