//! The cloud drive protocol: request addresses, headers and bodies, and the
//! reading of folder listings.  Requests go to the `applicationData`
//! container of the drive; folders are found by listing their parent.
use vstd::prelude::*;
use vstd::string::*;
use vstd::utf8::encode_utf8;
use crate::error::{ErrorCode, VfsError, VfsResult};
use crate::text::{concat, contains_text, has_substring, i32_text, replace_char, replace_char_with, same_text, signed_decimal, split_segments, segments, views};

verus! {

/// The id under which the container's root folder is addressed.
pub open spec fn root_folder_id() -> Seq<char> {
    "applicationData"@
}

/// The id of the container's root folder.
pub fn root_folder() -> (r: String)
    ensures
        r@ == root_folder_id(),
{
    "applicationData".to_owned()
}

// ---------------------------------------------------------------------------
// Percent-encoding and JSON string literals
// ---------------------------------------------------------------------------

/// Bytes that percent-encoding leaves as they are.
pub open spec fn is_unreserved(b: u8) -> bool {
    (48 <= b && b <= 57) || (65 <= b && b <= 90) || (97 <= b && b <= 122) || b == 45 || b == 46
        || b == 95 || b == 126
}

/// Upper-case hexadecimal digit of `d < 16`.
pub open spec fn hex_upper(d: u8) -> char {
    seq!['0', '1', '2', '3', '4', '5', '6', '7', '8', '9', 'A', 'B', 'C', 'D', 'E', 'F'][d as int]
}

/// Lower-case hexadecimal digit of `d < 16`.
pub open spec fn hex_lower(d: u8) -> char {
    seq!['0', '1', '2', '3', '4', '5', '6', '7', '8', '9', 'a', 'b', 'c', 'd', 'e', 'f'][d as int]
}

/// Every byte but ASCII letters, digits and `-`, `.`, `_`, `~` written as
/// `%` and two upper-case hex digits.
pub open spec fn percent_encoded(bytes: Seq<u8>) -> Seq<char>
    decreases bytes.len(),
{
    if bytes.len() == 0 {
        Seq::empty()
    } else {
        let b = bytes[0];
        (if is_unreserved(b) {
            seq![b as char]
        } else {
            seq!['%', hex_upper(b / 16), hex_upper(b % 16)]
        }) + percent_encoded(bytes.drop_first())
    }
}

/// Percent-encodes the UTF-8 bytes of `s`.
///
/// Calls `urlencoding::encode`, which by its source and documentation
/// percent-encodes every byte except alphanumerics and `-`, `_`, `.`, `~`
/// with upper-case hex digits; that is what the contract claims.
#[verifier::external_body]
fn url_encode(s: &str) -> (r: String)
    ensures
        r@ == percent_encoded(encode_utf8(s@)),
{
    urlencoding::encode(s).into_owned()
}

/// How one character is written inside a JSON string literal.
pub open spec fn json_char(c: char) -> Seq<char> {
    if c == '"' {
        seq!['\\', '"']
    } else if c == '\\' {
        seq!['\\', '\\']
    } else if c == '\u{8}' {
        seq!['\\', 'b']
    } else if c == '\t' {
        seq!['\\', 't']
    } else if c == '\n' {
        seq!['\\', 'n']
    } else if c == '\u{c}' {
        seq!['\\', 'f']
    } else if c == '\r' {
        seq!['\\', 'r']
    } else if (c as u32) < 32 {
        seq!['\\', 'u', '0', '0', hex_lower(((c as u32) / 16) as u8), hex_lower(((c as u32) % 16) as u8)]
    } else {
        seq![c]
    }
}

/// The characters of `s` escaped for a JSON string literal.
pub open spec fn json_escaped(s: Seq<char>) -> Seq<char>
    decreases s.len(),
{
    if s.len() == 0 {
        Seq::empty()
    } else {
        json_escaped(s.drop_last()) + json_char(s.last())
    }
}

/// `s` as a JSON string literal, quotes included.
pub open spec fn json_quoted(s: Seq<char>) -> Seq<char> {
    seq!['"'] + json_escaped(s) + seq!['"']
}

/// `s` written as a JSON string literal.
///
/// Calls `serde_json::to_string` on a `&str`.  By serde_json's source
/// (`format_escaped_str`), it writes `"`, then each character, escaping `"`
/// and `\` with a backslash, backspace, tab, line feed, form feed and
/// carriage return as `\b \t \n \f \r`, the other characters below 0x20 as
/// `\u00` and two lower-case hex digits, and then `"`; serialising a string
/// into memory does not fail.  That is what the contract claims.
#[verifier::external_body]
pub(crate) fn json_string(s: &str) -> (r: String)
    ensures
        r@ == json_quoted(s@),
{
    match serde_json::to_string(s) {
        Ok(t) => t,
        Err(_) => String::new(),
    }
}


// ---------------------------------------------------------------------------
// Request addresses and headers
// ---------------------------------------------------------------------------

/// The address that lists the children of folder `parent` (up to 100).
pub open spec fn search_url_text(parent: Seq<char>) -> Seq<char> {
    "https://driveapis.cloud.huawei.com.cn/drive/v1/files?fields=*&form=json&containers=applicationData&pageSize=100&queryParam=parentFolder='"@
        + percent_encoded(encode_utf8(parent)) + "'"@
}

/// The address that lists the children of folder `parent_id`.
pub fn search_url(parent_id: &str) -> (r: String)
    ensures
        r@ == search_url_text(parent_id@),
{
    let encoded = url_encode(parent_id);
    let head = concat(
        "https://driveapis.cloud.huawei.com.cn/drive/v1/files?fields=*&form=json&containers=applicationData&pageSize=100&queryParam=parentFolder='",
        encoded.as_str(),
    );
    concat(head.as_str(), "'")
}

/// The address of file `id` itself (used to delete it).
pub open spec fn file_url_text(id: Seq<char>) -> Seq<char> {
    "https://driveapis.cloud.huawei.com.cn/drive/v1/files/"@ + id
}

pub fn file_url(id: &str) -> (r: String)
    ensures
        r@ == file_url_text(id@),
{
    concat("https://driveapis.cloud.huawei.com.cn/drive/v1/files/", id)
}

/// The address that downloads the content of file `id`.
pub open spec fn download_url_text(id: Seq<char>) -> Seq<char> {
    file_url_text(id) + "?form=content"@
}

pub fn download_url(id: &str) -> (r: String)
    ensures
        r@ == download_url_text(id@),
{
    let f = file_url(id);
    concat(f.as_str(), "?form=content")
}

/// The address to which a new folder is posted.
pub fn create_folder_url() -> (r: String)
    ensures
        r@ == "https://driveapis.cloud.huawei.com.cn/drive/v1/files?fields=*"@,
{
    "https://driveapis.cloud.huawei.com.cn/drive/v1/files?fields=*".to_owned()
}

/// The address to which a file is uploaded in one multipart request.
pub fn upload_url() -> (r: String)
    ensures
        r@ == "https://driveapis.cloud.huawei.com.cn/upload/drive/v1/files?uploadType=multipart&fields=*"@,
{
    "https://driveapis.cloud.huawei.com.cn/upload/drive/v1/files?uploadType=multipart&fields=*".to_owned()
}

/// The character sequences of name/value pairs.
pub open spec fn pair_views(v: Seq<(String, String)>) -> Seq<(Seq<char>, Seq<char>)> {
    v.map_values(|p: (String, String)| (p.0@, p.1@))
}

/// The authorization value for access token `at`.
pub open spec fn bearer(at: Seq<char>) -> Seq<char> {
    "Bearer "@ + at
}

fn header(name: &str, value: &str) -> (r: (String, String))
    ensures
        r.0@ == name@,
        r.1@ == value@,
{
    (name.to_owned(), value.to_owned())
}

/// Headers of a request carrying only the access token.
pub fn auth_headers(at: &str) -> (r: Vec<(String, String)>)
    ensures
        pair_views(r@) == seq![("Authorization"@, bearer(at@))],
{
    let token = concat("Bearer ", at);
    let mut r: Vec<(String, String)> = Vec::new();
    r.push(header("Authorization", token.as_str()));
    proof {
        assert(pair_views(r@) =~= seq![("Authorization"@, bearer(at@))]);
    }
    r
}

/// Headers of a JSON request with the access token.
pub fn json_headers(at: &str) -> (r: Vec<(String, String)>)
    ensures
        pair_views(r@) == seq![
            ("Authorization"@, bearer(at@)),
            ("Content-Type"@, "application/json"@),
            ("Accept"@, "application/json"@),
        ],
{
    let mut r = auth_headers(at);
    let ghost a = r@;
    proof {
        assert(pair_views(a).len() == 1);
        assert(a.len() == 1);
    }
    let h1 = header("Content-Type", "application/json");
    let h2 = header("Accept", "application/json");
    r.push(h1);
    r.push(h2);
    proof {
        assert(r@ == a.push(h1).push(h2));
        assert(r@[0] == a[0]);
        assert(pair_views(r@)[0] == pair_views(a)[0]);
        assert(pair_views(r@) =~= seq![
            ("Authorization"@, bearer(at@)),
            ("Content-Type"@, "application/json"@),
            ("Accept"@, "application/json"@),
        ]);
    }
    r
}

// ---------------------------------------------------------------------------
// Folder listings
// ---------------------------------------------------------------------------

/// One item of a folder listing, as the drive describes it.
#[derive(Debug)]
pub struct CloudItem {
    pub id: Option<String>,
    pub file_name: String,
    pub parent_folder: Option<Vec<String>>,
    /// RFC 3339 time of the last edit.
    pub edited_time: Option<String>,
    pub size: Option<u64>,
    pub mime_type: Option<String>,
}

pub struct CloudItemView {
    pub id: Option<Seq<char>>,
    pub file_name: Seq<char>,
    pub parent_folder: Option<Seq<Seq<char>>>,
    pub edited_time: Option<Seq<char>>,
    pub size: Option<u64>,
    pub mime_type: Option<Seq<char>>,
}

impl View for CloudItem {
    type V = CloudItemView;

    open spec fn view(&self) -> CloudItemView {
        CloudItemView {
            id: self.id.deep_view(),
            file_name: self.file_name@,
            parent_folder: self.parent_folder.deep_view(),
            edited_time: self.edited_time.deep_view(),
            size: self.size,
            mime_type: self.mime_type.deep_view(),
        }
    }
}

pub open spec fn item_views(v: Seq<CloudItem>) -> Seq<CloudItemView> {
    v.map_values(|c: CloudItem| c@)
}

/// The MIME type of a folder.
pub open spec fn folder_mime() -> Seq<char> {
    "application/vnd.huawei-apps.folder"@
}

/// Whether an item's MIME type marks a folder: equal to the folder type
/// when `exact`, otherwise containing `folder`.
pub open spec fn mime_is_folder(mime: Option<Seq<char>>, exact: bool) -> bool {
    match mime {
        Some(m) => if exact {
            m == folder_mime()
        } else {
            has_substring(m, "folder"@)
        },
        None => false,
    }
}

/// Whether item `it` is the folder named `name`.
pub open spec fn is_folder_named(it: CloudItemView, name: Seq<char>, exact: bool) -> bool {
    it.file_name == name && mime_is_folder(it.mime_type, exact)
}

/// The index of the first item satisfying the folder test, if any.
pub open spec fn first_folder(items: Seq<CloudItemView>, name: Seq<char>, exact: bool) -> Option<int>
    decreases items.len(),
{
    if items.len() == 0 {
        None
    } else if is_folder_named(items[0], name, exact) {
        Some(0)
    } else {
        match first_folder(items.drop_first(), name, exact) {
            Some(i) => Some(i + 1),
            None => None,
        }
    }
}

/// The index of the first item called `name`, if any.
pub open spec fn first_named(items: Seq<CloudItemView>, name: Seq<char>) -> Option<int>
    decreases items.len(),
{
    if items.len() == 0 {
        None
    } else if items[0].file_name == name {
        Some(0)
    } else {
        match first_named(items.drop_first(), name) {
            Some(i) => Some(i + 1),
            None => None,
        }
    }
}

proof fn lemma_first_folder_after(items: Seq<CloudItemView>, name: Seq<char>, exact: bool, i: int)
    requires
        0 <= i <= items.len(),
        forall|k: int| 0 <= k < i ==> !is_folder_named(#[trigger] items[k], name, exact),
    ensures
        first_folder(items, name, exact) == match first_folder(items.skip(i), name, exact) {
            Some(j) => Some(j + i),
            None => None::<int>,
        },
    decreases i,
{
    if i > 0 {
        assert(items.drop_first().skip(i - 1) =~= items.skip(i));
        lemma_first_folder_after(items.drop_first(), name, exact, i - 1);
    } else {
        assert(items.skip(0) =~= items);
        match first_folder(items, name, exact) {
            Some(j) => {},
            None => {},
        }
    }
}

/// The first item of a name is an item of the listing that has that name,
/// and no item before it has that name; when there is none, no item of the
/// listing has that name.
pub proof fn lemma_first_named_found(items: Seq<CloudItemView>, name: Seq<char>)
    ensures
        first_named(items, name) matches Some(i) ==> 0 <= i < items.len() && items[i].file_name == name
            && forall|k: int| 0 <= k < i ==> #[trigger] items[k].file_name != name,
        first_named(items, name) is None ==> forall|k: int| 0 <= k < items.len() ==> #[trigger] items[k].file_name != name,
    decreases items.len(),
{
    if items.len() > 0 && items[0].file_name != name {
        lemma_first_named_found(items.drop_first(), name);
        assert forall|k: int| 1 <= k < items.len() implies #[trigger] items[k] == items.drop_first()[k - 1] by {}
    }
}

/// The first folder of a name is an item of the listing that passes the
/// test, and no item before it does; when there is none, no item does.
pub proof fn lemma_first_folder_found(items: Seq<CloudItemView>, name: Seq<char>, exact: bool)
    ensures
        first_folder(items, name, exact) matches Some(i) ==> 0 <= i < items.len() && is_folder_named(items[i], name, exact)
            && forall|k: int| 0 <= k < i ==> !is_folder_named(#[trigger] items[k], name, exact),
        first_folder(items, name, exact) is None ==> forall|k: int| 0 <= k < items.len() ==> !is_folder_named(#[trigger] items[k], name, exact),
    decreases items.len(),
{
    if items.len() > 0 && !is_folder_named(items[0], name, exact) {
        lemma_first_folder_found(items.drop_first(), name, exact);
        assert forall|k: int| 1 <= k < items.len() implies #[trigger] items[k] == items.drop_first()[k - 1] by {}
    }
}

/// An item is a folder by its MIME type: exactly the folder type when
/// `exact`; any type containing `folder` otherwise; never without a type.
pub proof fn lemma_folder_mime(mime: Option<Seq<char>>)
    ensures
        mime is None ==> !mime_is_folder(mime, true) && !mime_is_folder(mime, false),
        mime_is_folder(mime, true) <==> mime == Some("application/vnd.huawei-apps.folder"@),
        mime matches Some(m) ==> (mime_is_folder(mime, false) <==> exists|i: int|
            0 <= i <= m.len() - "folder"@.len() && #[trigger] m.subrange(i, i + "folder"@.len()) == "folder"@),
{
}

proof fn lemma_first_named_after(items: Seq<CloudItemView>, name: Seq<char>, i: int)
    requires
        0 <= i <= items.len(),
        forall|k: int| 0 <= k < i ==> #[trigger] items[k].file_name != name,
    ensures
        first_named(items, name) == match first_named(items.skip(i), name) {
            Some(j) => Some(j + i),
            None => None::<int>,
        },
    decreases i,
{
    if i > 0 {
        assert(items.drop_first().skip(i - 1) =~= items.skip(i));
        lemma_first_named_after(items.drop_first(), name, i - 1);
    } else {
        assert(items.skip(0) =~= items);
        match first_named(items, name) {
            Some(j) => {},
            None => {},
        }
    }
}

fn mime_matches(mime: &Option<String>, exact: bool) -> (r: bool)
    ensures
        r == mime_is_folder(mime.deep_view(), exact),
{
    match mime {
        Some(m) => if exact {
            same_text(m.as_str(), "application/vnd.huawei-apps.folder")
        } else {
            contains_text(m.as_str(), "folder")
        },
        None => false,
    }
}

/// The id of the first listed folder called `name`: its MIME type must be
/// the folder type when `exact`, or contain `folder` otherwise.
pub fn find_folder(items: &Vec<CloudItem>, name: &str, exact: bool) -> (r: Option<String>)
    ensures
        r.deep_view() == match first_folder(item_views(items@), name@, exact) {
            Some(i) => item_views(items@)[i].id,
            None => None,
        },
{
    let ghost iv = item_views(items@);
    let n = items.len();
    let mut i: usize = 0;
    while i < n
        invariant
            n == items@.len(),
            iv == item_views(items@),
            i <= n,
            forall|k: int| 0 <= k < i ==> !is_folder_named(#[trigger] iv[k], name@, exact),
        decreases n - i,
    {
        let it = &items[i];
        if same_text(it.file_name.as_str(), name) && mime_matches(&it.mime_type, exact) {
            proof {
                assert(iv[i as int] == it@);
                lemma_first_folder_after(iv, name@, exact, i as int);
                assert(iv.skip(i as int)[0] == iv[i as int]);
            }
            return match &it.id {
                Some(id) => Some(id.clone()),
                None => None,
            };
        }
        proof {
            assert(iv[i as int] == it@);
        }
        i = i + 1;
    }
    proof {
        lemma_first_folder_after(iv, name@, exact, n as int);
        assert(iv.skip(n as int).len() == 0);
    }
    None
}

/// The index of the first listed item called `name`.
pub fn find_named(items: &Vec<CloudItem>, name: &str) -> (r: Option<usize>)
    ensures
        r matches Some(i) ==> i < items@.len() && items@[i as int].file_name@ == name@,
        match r {
            Some(i) => first_named(item_views(items@), name@) == Some(i as int),
            None => first_named(item_views(items@), name@) is None,
        },
{
    let ghost iv = item_views(items@);
    let n = items.len();
    let mut i: usize = 0;
    while i < n
        invariant
            n == items@.len(),
            iv == item_views(items@),
            i <= n,
            forall|k: int| 0 <= k < i ==> #[trigger] iv[k].file_name != name@,
        decreases n - i,
    {
        if same_text(items[i].file_name.as_str(), name) {
            proof {
                assert(iv[i as int] == items@[i as int]@);
                lemma_first_named_after(iv, name@, i as int);
                assert(iv.skip(i as int)[0] == iv[i as int]);
            }
            return Some(i);
        }
        proof {
            assert(iv[i as int] == items@[i as int]@);
        }
        i = i + 1;
    }
    proof {
        lemma_first_named_after(iv, name@, n as int);
        assert(iv.skip(n as int).len() == 0);
    }
    None
}


// ---------------------------------------------------------------------------
// Times
// ---------------------------------------------------------------------------

/// The seconds since the Unix epoch of the RFC 3339 date-time `text`, or
/// `None` when `text` is not one.
pub uninterp spec fn rfc3339_epoch_seconds(text: Seq<char>) -> Option<i64>;

/// Parses an RFC 3339 date-time into seconds since the Unix epoch.
///
/// Calls `chrono::DateTime::parse_from_rfc3339` and reads `timestamp()` of
/// the parsed value.  The contract claims only that the result is a function
/// of the text; what the parser accepts and how it computes the seconds is
/// left to chrono.
#[verifier::external_body]
fn rfc3339_seconds(text: &str) -> (r: Option<i64>)
    ensures
        r == rfc3339_epoch_seconds(text@),
{
    chrono::DateTime::parse_from_rfc3339(text).ok().map(|dt| dt.timestamp())
}

/// The epoch seconds of a drive time stamp: `Z` is replaced by `+00:00`
/// before parsing, and the seconds are taken as an unsigned number.
pub open spec fn timestamp_of(text: Seq<char>) -> Option<u64> {
    match rfc3339_epoch_seconds(replace_char(text, 'Z', "+00:00"@)) {
        Some(t) => Some(t as u64),
        None => None,
    }
}

/// Parsed epoch seconds taken as an unsigned number (a time before the
/// epoch wraps around, as an `as` conversion does).
pub fn unsigned_seconds(parsed: Option<i64>) -> (r: Option<u64>)
    ensures
        r == match parsed {
            Some(t) => Some(t as u64),
            None => None::<u64>,
        },
{
    match parsed {
        Some(t) => Some(t as u64),
        None => None,
    }
}

/// Parses a drive time stamp into epoch seconds.
pub fn parse_rfc3339_time(text: &str) -> (r: Option<u64>)
    ensures
        r == timestamp_of(text@),
{
    let normalized = replace_char_with(text, 'Z', "+00:00");
    unsigned_seconds(rfc3339_seconds(normalized.as_str()))
}

/// The edit time of an item in epoch seconds, 0 when absent or unreadable.
pub open spec fn edited_seconds(edited: Option<Seq<char>>) -> u64 {
    match edited {
        Some(t) => match timestamp_of(t) {
            Some(s) => s,
            None => 0,
        },
        None => 0,
    }
}

pub fn edit_time_of(edited: &Option<String>) -> (r: u64)
    ensures
        r == edited_seconds(edited.deep_view()),
{
    match edited {
        Some(t) => match parse_rfc3339_time(t.as_str()) {
            Some(s) => s,
            None => 0,
        },
        None => 0,
    }
}

// ---------------------------------------------------------------------------
// Responses
// ---------------------------------------------------------------------------

/// A `NetworkError` reporting an unexpected HTTP status after `prefix`.
pub fn status_error(prefix: &str, status: i32) -> (e: VfsError)
    ensures
        e.code == ErrorCode::NetworkError,
        e.message@ == prefix@ + signed_decimal(status as int),
{
    let digits = i32_text(status);
    VfsError { code: ErrorCode::NetworkError, message: concat(prefix, digits.as_str()) }
}

/// An error of `code` reporting that a body could not be parsed.
pub fn parse_error(code: ErrorCode, prefix: &str, detail: &str) -> (e: VfsError)
    ensures
        e.code == code,
        e.message@ == prefix@ + detail@,
{
    VfsError { code, message: concat(prefix, detail) }
}

/// The listing a search request gave: a `NetworkError` when the status is
/// not 200, a `JsonError` when the body did not parse, the items otherwise.
pub fn search_listing(status: i32, parsed: Result<Vec<CloudItem>, String>, subject: &str) -> (r: VfsResult<Vec<CloudItem>>)
    ensures
        status != 200 ==> (r matches Err(e) && e.code == ErrorCode::NetworkError
            && e.message@ == "Failed to search "@ + subject@ + ", status: "@ + signed_decimal(status as int)),
        status == 200 ==> match parsed {
            Ok(items) => (r matches Ok(v) && v@ == items@),
            Err(m) => (r matches Err(e) && e.code == ErrorCode::JsonError
                && e.message@ == "Failed to parse search result: "@ + m@),
        },
{
    if status != 200 {
        let head = concat("Failed to search ", subject);
        let prefix = concat(head.as_str(), ", status: ");
        return Err(status_error(prefix.as_str(), status));
    }
    match parsed {
        Ok(items) => Ok(items),
        Err(m) => Err(parse_error(ErrorCode::JsonError, "Failed to parse search result: ", m.as_str())),
    }
}

// ---------------------------------------------------------------------------
// Paths in the container
// ---------------------------------------------------------------------------

/// The cloud location of a path relative to the workspace: its segments,
/// the folders under the container root and then the entry's name.  Every
/// operation maps a relative path `abc/cde` to `applicationData/abc/cde`.
pub open spec fn cloud_location(relative: Seq<char>) -> Seq<Seq<char>> {
    segments(relative)
}

/// The folders that hold the entry at `relative`: its cloud location
/// without the last segment (none when it has no segment).
pub open spec fn parent_location(relative: Seq<char>) -> Seq<Seq<char>> {
    if cloud_location(relative).len() == 0 {
        Seq::empty()
    } else {
        cloud_location(relative).drop_last()
    }
}

/// The cloud location of a directory: the folders to walk from the root.
pub fn cloud_parts(relative: &str) -> (r: Vec<String>)
    ensures
        views(r@) == cloud_location(relative@),
{
    split_segments(relative)
}

/// A file in the container: the folders that lead to it and its name.
pub struct FileTarget {
    pub folders: Vec<String>,
    pub name: String,
}

/// The folders leading to, and the name of, the file at the relative path
/// `relative`; `InvalidParameter` when the path has no segment.
pub fn file_target(relative: &str) -> (r: VfsResult<FileTarget>)
    ensures
        r is Ok <==> cloud_location(relative@).len() > 0,
        r matches Ok(t) ==> views(t.folders@) == parent_location(relative@)
            && views(t.folders@).push(t.name@) == cloud_location(relative@),
        r matches Err(e) ==> e.code == ErrorCode::InvalidParameter && e.message@ == "Path is empty"@,
{
    let mut parts = split_segments(relative);
    if parts.len() == 0 {
        return Err(VfsError::new(ErrorCode::InvalidParameter, "Path is empty"));
    }
    let ghost all = parts@;
    let name = parts.pop().unwrap();
    proof {
        assert(views(parts@) =~= views(all).drop_last());
        assert(views(parts@).push(name@) =~= views(all));
    }
    Ok(FileTarget { folders: parts, name })
}

/// The folders that hold the entry at the relative path `path`, where an
/// upload puts it.
pub fn parent_folders(path: &str) -> (r: Vec<String>)
    ensures
        views(r@) == parent_location(path@),
{
    let mut parts = split_segments(path);
    if parts.len() > 0 {
        let ghost all = parts@;
        parts.pop();
        proof {
            assert(views(parts@) =~= views(all).drop_last());
        }
    }
    parts
}

} // verus!
