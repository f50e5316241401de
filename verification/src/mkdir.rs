//! Creating a directory locally and in the cloud.
use vstd::prelude::*;
use vstd::string::*;
use vstd::utf8::encode_utf8;
use crate::cloud::{json_quoted, json_string, status_error};
use crate::error::{ErrorCode, VfsError, VfsResult};
use crate::text::{concat, signed_decimal};

verus! {

/// The JSON that asks the drive to create folder `name` inside `parent`.
pub open spec fn create_folder_json(name: Seq<char>, parent: Seq<char>) -> Seq<char> {
    "{\"fileName\":"@ + json_quoted(name) + ",\"mimeType\":\"application/vnd.huawei-apps.folder\",\"parentFolder\":["@
        + json_quoted(parent) + "]}"@
}

/// The body of a request creating folder `name` inside folder `parent_id`.
pub fn create_folder_body(name: &str, parent_id: &str) -> (r: Vec<u8>)
    ensures
        r@ == encode_utf8(create_folder_json(name@, parent_id@)),
{
    let qn = json_string(name);
    let qp = json_string(parent_id);
    let a = concat("{\"fileName\":", qn.as_str());
    let b = concat(a.as_str(), ",\"mimeType\":\"application/vnd.huawei-apps.folder\",\"parentFolder\":[");
    let c = concat(b.as_str(), qp.as_str());
    let d = concat(c.as_str(), "]}");
    d.as_str().as_bytes_vec()
}

/// The id of a folder that a create request made: a `NetworkError` when the
/// status is not 200, a `JsonError` when the body did not parse.
pub fn created_folder_id(status: i32, parsed: Result<String, String>) -> (r: VfsResult<String>)
    ensures
        status != 200 ==> (r matches Err(e) && e.code == ErrorCode::NetworkError
            && e.message@ == "Failed to create folder, status: "@ + signed_decimal(status as int)),
        status == 200 ==> match parsed {
            Ok(id) => r == Ok::<String, VfsError>(id),
            Err(m) => (r matches Err(e) && e.code == ErrorCode::JsonError
                && e.message@ == "Failed to parse create folder response: "@ + m@),
        },
{
    if status != 200 {
        return Err(status_error("Failed to create folder, status: ", status));
    }
    match parsed {
        Ok(id) => Ok(id),
        Err(m) => Err(crate::cloud::parse_error(ErrorCode::JsonError, "Failed to parse create folder response: ", m.as_str())),
    }
}

/// The id of a folder that a create request made, as the absolute-path
/// adapter reports it: "Create folder failed, status: N" when the status is
/// not 200, "Parse create folder response: ..." when the body did not parse.
pub fn adapter_created_folder_id(status: i32, parsed: Result<String, String>) -> (r: VfsResult<String>)
    ensures
        status != 200 ==> (r matches Err(e) && e.code == ErrorCode::NetworkError
            && e.message@ == "Create folder failed, status: "@ + signed_decimal(status as int)),
        status == 200 ==> match parsed {
            Ok(id) => r == Ok::<String, VfsError>(id),
            Err(m) => (r matches Err(e) && e.code == ErrorCode::JsonError
                && e.message@ == "Parse create folder response: "@ + m@),
        },
{
    if status != 200 {
        return Err(status_error("Create folder failed, status: ", status));
    }
    match parsed {
        Ok(id) => Ok(id),
        Err(m) => Err(crate::cloud::parse_error(ErrorCode::JsonError, "Parse create folder response: ", m.as_str())),
    }
}

/// The outcome of making a directory once the local directory exists:
/// `Ok(true)` when the cloud folder chain was found or made; without an
/// access token the missing cloud folder is an error (`WorkspaceNotSet`,
/// as reading the token reports it), and a failed walk gives its error.
pub fn mk_dir_outcome(have_token: bool, ensured: VfsResult<String>) -> (r: VfsResult<bool>)
    ensures
        !have_token ==> (r matches Err(e) && e.code == ErrorCode::WorkspaceNotSet
            && e.message@ == "AT token has not been set"@),
        have_token ==> match ensured {
            Ok(_) => r == Ok::<bool, VfsError>(true),
            Err(e) => r == Err::<bool, VfsError>(e),
        },
{
    if !have_token {
        return Err(VfsError::new(ErrorCode::WorkspaceNotSet, "AT token has not been set"));
    }
    match ensured {
        Ok(_) => Ok(true),
        Err(e) => Err(e),
    }
}

} // verus!
