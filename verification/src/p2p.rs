//! Decisions of the peer-to-peer channel: the queue of received messages,
//! readiness, and how a pushed request is answered.
use vstd::prelude::*;
use crate::cloud::{json_quoted, json_string};
use crate::error::VfsResult;
use crate::text::{concat, same_text};
use crate::upload::SyncResult;

verus! {

/// Drains the queue of received messages: returns them in arrival order and
/// leaves the queue empty.
pub fn p2p_poll_messages(queue: &mut Vec<String>) -> (msgs: Vec<String>)
    ensures
        msgs@ == old(queue)@,
        final(queue)@.len() == 0,
{
    let mut drained: Vec<String> = Vec::new();
    std::mem::swap(queue, &mut drained);
    drained
}

/// Appends a received message to the queue.
pub fn record_message(queue: &mut Vec<String>, text: String)
    ensures
        final(queue)@ == old(queue)@.push(text),
{
    queue.push(text);
}

/// Whether the connectivity state allows sending: `Connected` or `Completed`.
pub open spec fn ready_state(state: Seq<char>) -> bool {
    state == "Connected"@ || state == "Completed"@
}

/// Whether data can be sent in connectivity state `ice_state`.
pub fn p2p_is_ready(ice_state: &str) -> (b: bool)
    ensures
        b == ready_state(ice_state@),
{
    same_text(ice_state, "Connected") || same_text(ice_state, "Completed")
}

/// The connectivity state as reported: its name, or `NONE` before the
/// client has one.
pub fn p2p_ice_state(state: Option<String>) -> (r: String)
    ensures
        r@ == match state.deep_view() {
            Some(s) => s,
            None => "NONE"@,
        },
{
    match state {
        Some(s) => s,
        None => "NONE".to_owned(),
    }
}

/// How the answer to a pushed request is delivered.
#[derive(Debug, Clone, Copy, PartialEq, Eq, Structural)]
pub enum PushDelivery {
    /// The channel is ready: send the answer now.
    SendNow,
    /// Connect first; the answer is sent once the channel becomes ready.
    ConnectThenSend,
}

/// The delivery of an answer in connectivity state `ice_state`.
pub fn push_delivery(ice_state: &str) -> (d: PushDelivery)
    ensures
        d == (if ready_state(ice_state@) {
            PushDelivery::SendNow
        } else {
            PushDelivery::ConnectThenSend
        }),
{
    if p2p_is_ready(ice_state) {
        PushDelivery::SendNow
    } else {
        PushDelivery::ConnectThenSend
    }
}

/// The fields of a pushed message that routing reads.
#[derive(Debug)]
pub struct PushMessage {
    pub msg_type: Option<String>,
    pub request_id: Option<String>,
    pub path: Option<String>,
    pub file_name: Option<String>,
}

/// The string fields `type`, `request_id`, `path` and `fileName` of the JSON
/// text `payload`, or the parser's message when it is not JSON.
pub uninterp spec fn json_push_fields(payload: Seq<char>) -> Result<
    (Option<Seq<char>>, Option<Seq<char>>, Option<Seq<char>>, Option<Seq<char>>),
    Seq<char>,
>;

pub open spec fn push_view(m: PushMessage) -> (Option<Seq<char>>, Option<Seq<char>>, Option<Seq<char>>, Option<Seq<char>>) {
    (m.msg_type.deep_view(), m.request_id.deep_view(), m.path.deep_view(), m.file_name.deep_view())
}

/// Parses a pushed message.
///
/// Calls `serde_json::from_str` into a `serde_json::Value`, and reads the
/// string values of the keys `type`, `request_id`, `path` and `fileName`
/// (absent when missing or not a string); a parse error becomes its
/// message.  The contract claims only that the result is a function of the
/// text.
#[verifier::external_body]
fn parse_push_message(payload: &str) -> (r: Result<PushMessage, String>)
    ensures
        match (r, json_push_fields(payload@)) {
            (Ok(m), Ok(f)) => push_view(m) == f,
            (Err(e), Err(f)) => e@ == f,
            _ => false,
        },
{
    match serde_json::from_str::<serde_json::Value>(payload) {
        Ok(v) => {
            let field = |k: &str| v.get(k).and_then(|x| x.as_str()).map(|s| s.to_string());
            Ok(PushMessage {
                msg_type: field("type"),
                request_id: field("request_id"),
                path: field("path"),
                file_name: field("fileName"),
            })
        },
        Err(e) => Err(e.to_string()),
    }
}

/// Where a pushed message is routed.
#[derive(Debug)]
pub enum PushRoute {
    /// Answer at once with this text.
    Reply(String),
    /// List the local directory `path` and answer with its manifest.
    FileList { request_id: String, path: String },
    /// Sync the local `path` to the cloud and answer with the outcome.
    Sync { request_id: String, path: String, file_name: String },
}

/// The text of an error answer that is not itself escaped.
pub open spec fn raw_error(message: Seq<char>) -> Seq<char> {
    "{\"error\": \""@ + message + "\"}"@
}

/// The route of a pushed message, by its `type`: a `file_list_request` or a
/// `sync_request` needs a `request_id` (the answer says it is missing
/// otherwise); `path` defaults to `/` for a listing and to the empty path
/// for a sync, `fileName` to empty; any other type, and text that is not
/// JSON, is answered with an error.
pub open spec fn push_route(parsed: Result<(Option<Seq<char>>, Option<Seq<char>>, Option<Seq<char>>, Option<Seq<char>>), Seq<char>>) -> (
    int,
    Seq<char>,
    Seq<char>,
    Seq<char>,
) {
    match parsed {
        Err(e) => (0, raw_error("Invalid JSON: "@ + e), Seq::empty(), Seq::empty()),
        Ok((t, rid, path, name)) => {
            let ty = match t {
                Some(x) => x,
                None => Seq::empty(),
            };
            if ty == "file_list_request"@ || ty == "sync_request"@ {
                match rid {
                    None => (0, raw_error("missing request_id"@), Seq::empty(), Seq::empty()),
                    Some(id) => if ty == "file_list_request"@ {
                        (1, id, match path {
                            Some(p) => p,
                            None => "/"@,
                        }, Seq::empty())
                    } else {
                        (2, id, match path {
                            Some(p) => p,
                            None => Seq::empty(),
                        }, match name {
                            Some(n) => n,
                            None => Seq::empty(),
                        })
                    },
                }
            } else {
                (0, raw_error("Unhandled message type: "@ + ty), Seq::empty(), Seq::empty())
            }
        },
    }
}

/// A route as values: (0, answer, _, _), (1, request id, path, _) or
/// (2, request id, path, file name).
pub open spec fn route_view(r: PushRoute) -> (int, Seq<char>, Seq<char>, Seq<char>) {
    match r {
        PushRoute::Reply(t) => (0, t@, Seq::empty(), Seq::empty()),
        PushRoute::FileList { request_id, path } => (1, request_id@, path@, Seq::empty()),
        PushRoute::Sync { request_id, path, file_name } => (2, request_id@, path@, file_name@),
    }
}

fn or_default(v: Option<String>, default: &str) -> (r: String)
    ensures
        r@ == match v.deep_view() {
            Some(x) => x,
            None => default@,
        },
{
    match v {
        Some(x) => x,
        None => default.to_owned(),
    }
}

fn error_reply(message: &str) -> (r: PushRoute)
    ensures
        route_view(r) == (0int, raw_error(message@), Seq::<char>::empty(), Seq::<char>::empty()),
{
    let a = concat("{\"error\": \"", message);
    PushRoute::Reply(concat(a.as_str(), "\"}"))
}

fn route_fields(msg: PushMessage) -> (r: PushRoute)
    ensures
        route_view(r) == push_route(Ok(push_view(msg))),
{
    proof {
        reveal_strlit("");
        assert(""@ =~= Seq::<char>::empty());
    }
    let ty = or_default(msg.msg_type, "");
    let is_list = same_text(ty.as_str(), "file_list_request");
    let is_sync = same_text(ty.as_str(), "sync_request");
    if is_list || is_sync {
        match msg.request_id {
            None => error_reply("missing request_id"),
            Some(request_id) => if is_list {
                let path = or_default(msg.path, "/");
                PushRoute::FileList { request_id, path }
            } else {
                let path = or_default(msg.path, "");
                let file_name = or_default(msg.file_name, "");
                PushRoute::Sync { request_id, path, file_name }
            },
        }
    } else {
        let m = concat("Unhandled message type: ", ty.as_str());
        error_reply(m.as_str())
    }
}

/// Routes a pushed message.
pub fn route_push_message(parsed: Result<PushMessage, String>) -> (r: PushRoute)
    ensures
        route_view(r) == push_route(match parsed {
            Ok(m) => Ok(push_view(m)),
            Err(e) => Err(e@),
        }),
{
    match parsed {
        Err(e) => {
            let m = concat("Invalid JSON: ", e.as_str());
            error_reply(m.as_str())
        },
        Ok(msg) => route_fields(msg),
    }
}

/// The route of the pushed message `payload`, read as JSON.
pub fn push_route_of(payload: &str) -> (r: PushRoute)
    ensures
        route_view(r) == push_route(json_push_fields(payload@)),
{
    let parsed = parse_push_message(payload);
    route_push_message(parsed)
}

/// `"key":value` for a JSON object.
fn member(key: &str, value: &str) -> (r: String)
    ensures
        r@ == json_quoted(key@) + ":"@ + value@,
{
    let k = json_string(key);
    let a = concat(k.as_str(), ":");
    concat(a.as_str(), value)
}

/// A JSON member as values.
pub open spec fn member_text(key: Seq<char>, value: Seq<char>) -> Seq<char> {
    json_quoted(key) + ":"@ + value
}

/// The answer listing a local directory: its manifest (already JSON), path,
/// request id and type, keys in sorted order.
pub fn file_list_response(request_id: &str, path: &str, manifest_json: &str) -> (r: String)
    ensures
        r@ == "{"@ + member_text("manifest"@, manifest_json@) + ","@ + member_text("path"@, json_quoted(path@))
            + ","@ + member_text("request_id"@, json_quoted(request_id@)) + ","@ + member_text(
            "type"@,
            json_quoted("file_list_response"@),
        ) + "}"@,
{
    let qp = json_string(path);
    let qr = json_string(request_id);
    let qt = json_string("file_list_response");
    let m1 = member("manifest", manifest_json);
    let m2 = member("path", qp.as_str());
    let m3 = member("request_id", qr.as_str());
    let m4 = member("type", qt.as_str());
    let a = concat("{", m1.as_str());
    let b = concat(a.as_str(), ",");
    let c = concat(b.as_str(), m2.as_str());
    let d = concat(c.as_str(), ",");
    let e = concat(d.as_str(), m3.as_str());
    let f = concat(e.as_str(), ",");
    let g = concat(f.as_str(), m4.as_str());
    concat(g.as_str(), "}")
}

/// The answer reporting that a local directory could not be listed.
pub fn file_list_error_response(request_id: &str, path: &str, message: &str) -> (r: String)
    ensures
        r@ == "{"@ + member_text("error"@, json_quoted(message@)) + ","@ + member_text("path"@, json_quoted(path@))
            + ","@ + member_text("request_id"@, json_quoted(request_id@)) + ","@ + member_text(
            "type"@,
            json_quoted("file_list_response"@),
        ) + "}"@,
{
    let qm = json_string(message);
    let qp = json_string(path);
    let qr = json_string(request_id);
    let qt = json_string("file_list_response");
    let m1 = member("error", qm.as_str());
    let m2 = member("path", qp.as_str());
    let m3 = member("request_id", qr.as_str());
    let m4 = member("type", qt.as_str());
    let a = concat("{", m1.as_str());
    let b = concat(a.as_str(), ",");
    let c = concat(b.as_str(), m2.as_str());
    let d = concat(c.as_str(), ",");
    let e = concat(d.as_str(), m3.as_str());
    let f = concat(e.as_str(), ",");
    let g = concat(f.as_str(), m4.as_str());
    concat(g.as_str(), "}")
}

/// The answer to a sync request: the synced id and digest, or the error
/// message, with the request's path, file name and id, keys in sorted order.
pub fn sync_response(request_id: &str, path: &str, file_name: &str, outcome: &VfsResult<SyncResult>) -> (r: String)
    ensures
        outcome matches Ok(s) ==> r@ == "{"@ + member_text("fileName"@, json_quoted(file_name@)) + ","@
            + member_text("file_id"@, json_quoted(s.file_id@)) + ","@ + member_text("path"@, json_quoted(path@)) + ","@
            + member_text("request_id"@, json_quoted(request_id@)) + ","@ + member_text("sha256"@, json_quoted(s.sha256@))
            + ","@ + member_text("type"@, json_quoted("sync_response"@)) + "}"@,
        outcome matches Err(e) ==> r@ == "{"@ + member_text("error"@, json_quoted(e.message@)) + ","@
            + member_text("fileName"@, json_quoted(file_name@)) + ","@ + member_text("path"@, json_quoted(path@)) + ","@
            + member_text("request_id"@, json_quoted(request_id@)) + ","@ + member_text("type"@, json_quoted("sync_response"@))
            + "}"@,
{
    let qf = json_string(file_name);
    let qp = json_string(path);
    let qr = json_string(request_id);
    let qt = json_string("sync_response");
    let m_name = member("fileName", qf.as_str());
    let m_path = member("path", qp.as_str());
    let m_req = member("request_id", qr.as_str());
    let m_type = member("type", qt.as_str());
    match outcome {
        Ok(s) => {
            let qi = json_string(s.file_id.as_str());
            let qs = json_string(s.sha256.as_str());
            let m_id = member("file_id", qi.as_str());
            let m_sha = member("sha256", qs.as_str());
            let a = concat("{", m_name.as_str());
            let b = concat(a.as_str(), ",");
            let c = concat(b.as_str(), m_id.as_str());
            let d = concat(c.as_str(), ",");
            let e = concat(d.as_str(), m_path.as_str());
            let f = concat(e.as_str(), ",");
            let g = concat(f.as_str(), m_req.as_str());
            let h = concat(g.as_str(), ",");
            let i = concat(h.as_str(), m_sha.as_str());
            let j = concat(i.as_str(), ",");
            let k = concat(j.as_str(), m_type.as_str());
            concat(k.as_str(), "}")
        },
        Err(err) => {
            let qe = json_string(err.message.as_str());
            let m_err = member("error", qe.as_str());
            let a = concat("{", m_err.as_str());
            let b = concat(a.as_str(), ",");
            let c = concat(b.as_str(), m_name.as_str());
            let d = concat(c.as_str(), ",");
            let e = concat(d.as_str(), m_path.as_str());
            let f = concat(e.as_str(), ",");
            let g = concat(f.as_str(), m_req.as_str());
            let h = concat(g.as_str(), ",");
            let i = concat(h.as_str(), m_type.as_str());
            concat(i.as_str(), "}")
        },
    }
}

/// A pushed listing request is routed to the directory it names, and to
/// the root only when it names none; a pushed sync request to the path and
/// file name it names (empty when absent); both carry the request's id.  A
/// request without an id is answered at once.
pub proof fn lemma_push_requests_keep_their_fields(id: Seq<char>, p: Seq<char>, f: Seq<char>, n: Option<Seq<char>>)
    ensures
        push_route(Ok((Some("file_list_request"@), Some(id), Some(p), n))) == (1int, id, p, Seq::<char>::empty()),
        push_route(Ok((Some("file_list_request"@), Some(id), None::<Seq<char>>, n))) == (1int, id, "/"@, Seq::<char>::empty()),
        push_route(Ok((Some("sync_request"@), Some(id), Some(p), Some(f)))) == (2int, id, p, f),
        push_route(Ok((Some("sync_request"@), Some(id), None::<Seq<char>>, None::<Seq<char>>)))
            == (2int, id, Seq::<char>::empty(), Seq::<char>::empty()),
        push_route(Ok((Some("file_list_request"@), None::<Seq<char>>, Some(p), n))).0 == 0,
        push_route(Ok((Some("sync_request"@), None::<Seq<char>>, Some(p), Some(f)))).0 == 0,
{
    reveal_strlit("file_list_request");
    reveal_strlit("sync_request");
    assert("file_list_request"@ != "sync_request"@) by {
        assert("file_list_request"@[0] != "sync_request"@[0]);
    }
}

} // verus!
