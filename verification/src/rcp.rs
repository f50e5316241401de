//! The response of an HTTP request made to the cloud drive.
use vstd::prelude::*;
use vstd::utf8::{decode_utf8, valid_utf8};

verus! {

/// Status and body of an HTTP response.
#[derive(Debug)]
pub struct HttpResponse {
    pub status_code: i32,
    pub body: Option<Vec<u8>>,
    pub headers: std::collections::HashMap<String, String>,
}

/// The text of `bytes` with every invalid UTF-8 sequence replaced by U+FFFD.
pub uninterp spec fn utf8_lossy_text(bytes: Seq<u8>) -> Seq<char>;

/// Decodes bytes as UTF-8, replacing invalid sequences.
///
/// Calls `String::from_utf8_lossy`.  Its documentation states that valid
/// UTF-8 is returned as it is; the contract claims that, and otherwise only
/// that the result is a function of the bytes.
#[verifier::external_body]
fn utf8_lossy(bytes: &[u8]) -> (r: String)
    ensures
        r@ == utf8_lossy_text(bytes@),
        valid_utf8(bytes@) ==> r@ == decode_utf8(bytes@),
{
    String::from_utf8_lossy(bytes).into_owned()
}

impl HttpResponse {
    /// The body as text, when there is a body.
    pub fn body_as_string(&self) -> (r: Option<String>)
        ensures
            match self.body {
                Some(b) => (r matches Some(t) && t@ == utf8_lossy_text(b@) && (valid_utf8(b@) ==> t@ == decode_utf8(b@))),
                None => r is None,
            },
    {
        match &self.body {
            Some(b) => Some(utf8_lossy(b.as_slice())),
            None => None,
        }
    }
}

} // verus!
