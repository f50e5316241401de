//! Storage of the cloud access token (AT).
use vstd::prelude::*;
use crate::error::{ErrorCode, VfsError, VfsResult};

verus! {

/// Holds the access token, if one has been set.
pub struct AtStore {
    pub token: Option<String>,
}

impl View for AtStore {
    type V = Option<Seq<char>>;

    open spec fn view(&self) -> Option<Seq<char>> {
        self.token.deep_view()
    }
}

impl AtStore {
    /// A store that holds no token.
    pub fn new() -> (s: AtStore)
        ensures
            s@ is None,
    {
        AtStore { token: None }
    }
}

/// The store after a token has been set.
pub open spec fn token_after_set(at: Seq<char>) -> Option<Seq<char>> {
    Some(at)
}

/// Stores `at` as the access token, replacing any earlier one.
pub fn set_at(store: &mut AtStore, at: &str) -> (r: VfsResult<()>)
    ensures
        r is Ok,
        final(store)@ == token_after_set(at@),
{
    store.token = Some(at.to_owned());
    Ok(())
}

/// The stored access token; `WorkspaceNotSet` when none was set.
pub fn get_at(store: &AtStore) -> (r: VfsResult<String>)
    ensures
        r is Ok <==> store@ is Some,
        r matches Ok(t) ==> Some(t@) == store@,
        r matches Err(e) ==> e.code == ErrorCode::WorkspaceNotSet
            && e.message@ == "AT token has not been set"@,
{
    match &store.token {
        Some(at) => Ok(at.clone()),
        None => Err(VfsError::new(ErrorCode::WorkspaceNotSet, "AT token has not been set")),
    }
}

/// Whether an access token has been set.
pub fn is_at_set(store: &AtStore) -> (b: bool)
    ensures
        b == store@ is Some,
{
    store.token.is_some()
}

/// The stored token, or the empty string when none was set.
pub fn token_or_empty(store: &AtStore) -> (t: String)
    ensures
        t@ == match store@ {
            Some(a) => a,
            None => Seq::<char>::empty(),
        },
{
    match get_at(store) {
        Ok(t) => t,
        Err(_) => String::new(),
    }
}

/// A token that was set is the token read back, and it counts as set.
pub proof fn lemma_get_after_set(at: Seq<char>)
    ensures
        token_after_set(at) == Some(at),
        token_after_set(at) is Some,
{
}

} // verus!
