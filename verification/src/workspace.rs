//! The local workspace and base path, and how relative paths resolve
//! against them, locally and in the cloud container.
use vstd::prelude::*;
use crate::error::{ErrorCode, VfsError, VfsResult};
use crate::cloud::cloud_location;
use crate::text::{concat, starts_with_char, strip_both, strip_leading, trim_char, trim_start_char, segments, lemma_segments_join, lemma_segments_strip_leading, lemma_segments_strip_trailing, lemma_strip_leading_start};

verus! {

/// `p` appended to `base` the way a Unix path is extended: an absolute `p`
/// replaces `base`; otherwise a `/` is put between them unless `base` is
/// empty or already ends in `/`.
pub open spec fn path_join(base: Seq<char>, p: Seq<char>) -> Seq<char> {
    if p.len() > 0 && p[0] == '/' {
        p
    } else if base.len() == 0 || base.last() == '/' {
        base + p
    } else {
        base + seq!['/'] + p
    }
}

/// Extends the path `base` with `p`.
pub fn join_path(base: &str, p: &str) -> (r: String)
    ensures
        r@ == path_join(base@, p@),
{
    if starts_with_char(p, '/') {
        return p.to_owned();
    }
    let n = base.unicode_len();
    if n == 0 || base.get_char(n - 1) == '/' {
        concat(base, p)
    } else {
        let with_sep = concat(base, "/");
        proof {
            reveal_strlit("/");
        }
        concat(with_sep.as_str(), p)
    }
}

/// The workspace and the base path, each set or not.
pub struct WorkspaceStore {
    pub workspace: Option<String>,
    pub base_path: Option<String>,
}

pub struct WorkspaceView {
    pub workspace: Option<Seq<char>>,
    pub base_path: Option<Seq<char>>,
}

impl View for WorkspaceStore {
    type V = WorkspaceView;

    open spec fn view(&self) -> WorkspaceView {
        WorkspaceView {
            workspace: self.workspace.deep_view(),
            base_path: self.base_path.deep_view(),
        }
    }
}

/// The local path of `relative` (already stripped of leading `/`) under
/// `base` and `workspace`; the workspace's leading `/` is dropped so that it
/// nests under the base.
pub open spec fn workspace_join(base: Seq<char>, workspace: Seq<char>, relative: Seq<char>) -> Seq<char> {
    let ws_rel = strip_leading(workspace, '/');
    if relative.len() == 0 {
        path_join(base, ws_rel)
    } else {
        path_join(path_join(base, ws_rel), relative)
    }
}

/// The local directory of workspace `workspace`: without its leading `/`
/// under the base path when one is set; the workspace path itself otherwise.
pub open spec fn workspace_root(v: WorkspaceView, workspace: Seq<char>) -> Seq<char> {
    match v.base_path {
        Some(b) => path_join(b, strip_leading(workspace, '/')),
        None => workspace,
    }
}

/// Where a relative path lies locally, when a workspace is set: under the
/// workspace's local directory (e.g. workspace `/xxx/yyy` and path `/qqq`
/// give `/xxx/yyy/qqq`).
pub open spec fn resolved(v: WorkspaceView, relative: Seq<char>) -> Option<Seq<char>> {
    match v.workspace {
        Some(ws) => {
            let rel = strip_leading(relative, '/');
            let root = workspace_root(v, ws);
            Some(if rel.len() == 0 { root } else { path_join(root, rel) })
        },
        None => None,
    }
}

/// The cloud path of `relative` under the workspace: both stripped of
/// surrounding `/` and joined by one `/`, an empty side left out.
pub open spec fn cloud_join(workspace: Seq<char>, relative: Seq<char>) -> Seq<char> {
    let ws = strip_both(workspace, '/');
    let rp = strip_both(relative, '/');
    if ws.len() == 0 {
        rp
    } else if rp.len() == 0 {
        ws
    } else {
        ws + seq!['/'] + rp
    }
}

/// The local directory that setting workspace `path` makes.
pub open spec fn workspace_dir(v: WorkspaceView, path: Seq<char>) -> Seq<char> {
    workspace_root(v, path)
}

impl WorkspaceStore {
    /// Neither a workspace nor a base path is set.
    pub fn new() -> (s: WorkspaceStore)
        ensures
            s@.workspace is None,
            s@.base_path is None,
    {
        WorkspaceStore { workspace: None, base_path: None }
    }
}

/// Sets the workspace to `path` and returns the local directory that must
/// exist for it: the workspace, without its leading `/`, under the base
/// path, or the workspace path itself when no base path is set.
pub fn set_workspace(store: &mut WorkspaceStore, path: &str) -> (dir: String)
    ensures
        final(store)@.workspace == Some(path@),
        final(store)@.base_path == old(store)@.base_path,
        dir@ == workspace_dir(old(store)@, path@),
{
    store.workspace = Some(path.to_owned());
    match &store.base_path {
        Some(b) => {
            let ws_rel = trim_start_char(path, '/');
            join_path(b.as_str(), ws_rel.as_str())
        },
        None => path.to_owned(),
    }
}

/// Sets the base path, under which the workspace lives.
pub fn set_base_path(store: &mut WorkspaceStore, path: &str)
    ensures
        final(store)@.base_path == Some(path@),
        final(store)@.workspace == old(store)@.workspace,
{
    store.base_path = Some(path.to_owned());
}

/// The workspace; `WorkspaceNotSet` when none is set.
pub fn get_workspace(store: &WorkspaceStore) -> (r: VfsResult<String>)
    ensures
        r is Ok <==> store@.workspace is Some,
        r matches Ok(w) ==> Some(w@) == store@.workspace,
        r matches Err(e) ==> e.code == ErrorCode::WorkspaceNotSet
            && e.message@ == "Workspace has not been set"@,
{
    match &store.workspace {
        Some(p) => Ok(p.clone()),
        None => Err(VfsError::new(ErrorCode::WorkspaceNotSet, "Workspace has not been set")),
    }
}

/// The base path; `WorkspaceNotSet` when none is set.
pub fn get_base_path(store: &WorkspaceStore) -> (r: VfsResult<String>)
    ensures
        r is Ok <==> store@.base_path is Some,
        r matches Ok(b) ==> Some(b@) == store@.base_path,
        r matches Err(e) ==> e.code == ErrorCode::WorkspaceNotSet
            && e.message@ == "Base path has not been set"@,
{
    match &store.base_path {
        Some(p) => Ok(p.clone()),
        None => Err(VfsError::new(ErrorCode::WorkspaceNotSet, "Base path has not been set")),
    }
}

/// Forgets the workspace.
pub fn clear_workspace(store: &mut WorkspaceStore)
    ensures
        final(store)@.workspace is None,
        final(store)@.base_path == old(store)@.base_path,
{
    store.workspace = None;
}

/// Whether a workspace is set.
pub fn is_workspace_set(store: &WorkspaceStore) -> (b: bool)
    ensures
        b == store@.workspace is Some,
{
    store.workspace.is_some()
}

/// The local path of `relative` under `base` and `workspace`.
pub fn join_workspace(base: &str, workspace: &str, relative: &str) -> (r: String)
    ensures
        r@ == workspace_join(base@, workspace@, relative@),
{
    let ws_rel = trim_start_char(workspace, '/');
    let dir = join_path(base, ws_rel.as_str());
    if relative.unicode_len() == 0 {
        dir
    } else {
        join_path(dir.as_str(), relative)
    }
}

/// The local path that a path relative to the workspace denotes;
/// `WorkspaceNotSet` when no workspace is set.
pub fn resolve_path(store: &WorkspaceStore, relative_path: &str) -> (r: VfsResult<String>)
    ensures
        r is Ok <==> store@.workspace is Some,
        r matches Ok(p) ==> Some(p@) == resolved(store@, relative_path@),
        r matches Err(e) ==> e.code == ErrorCode::WorkspaceNotSet,
{
    let workspace = get_workspace(store)?;
    let normalized = trim_start_char(relative_path, '/');
    match &store.base_path {
        Some(b) => Ok(join_workspace(b.as_str(), workspace.as_str(), normalized.as_str())),
        None => if normalized.unicode_len() == 0 {
            Ok(workspace)
        } else {
            Ok(join_path(workspace.as_str(), normalized.as_str()))
        },
    }
}

/// The cloud path, relative to the container, of a path relative to the
/// workspace: e.g. workspace `/qqq` and path `/zzz/1.txt` give
/// `qqq/zzz/1.txt`.  Without a workspace the path is returned as it is,
/// stripped of its leading `/`.
pub fn build_cloud_path(store: &WorkspaceStore, relative_path: &str) -> (r: VfsResult<String>)
    ensures
        r matches Ok(p) && p@ == match store@.workspace {
            Some(w) => cloud_join(w, relative_path@),
            None => strip_leading(relative_path@, '/'),
        },
{
    let workspace = match &store.workspace {
        Some(w) => w,
        None => return Ok(trim_start_char(relative_path, '/')),
    };
    let ws = trim_char(workspace.as_str(), '/');
    let rp = trim_char(relative_path, '/');
    if ws.unicode_len() == 0 {
        Ok(rp)
    } else if rp.unicode_len() == 0 {
        Ok(ws)
    } else {
        let with_sep = concat(ws.as_str(), "/");
        proof {
            reveal_strlit("/");
        }
        Ok(concat(with_sep.as_str(), rp.as_str()))
    }
}

/// Extending a path by a relative path appends its segments.
pub proof fn lemma_path_join_segments(base: Seq<char>, p: Seq<char>)
    requires
        !(p.len() > 0 && p[0] == '/'),
    ensures
        segments(path_join(base, p)) == segments(base) + segments(p),
{
    if base.len() == 0 {
        assert(base + p =~= p);
        assert(segments(base) =~= Seq::<Seq<char>>::empty());
        assert(segments(base) + segments(p) =~= segments(p));
    } else if base.last() == '/' {
        let b0 = base.drop_last();
        assert(b0 + seq!['/'] + p =~= base + p);
        lemma_segments_join(b0, p);
        lemma_segments_join(b0, Seq::empty());
        assert(b0 + seq!['/'] + Seq::<char>::empty() =~= base);
        assert(segments(b0) + segments(Seq::<char>::empty()) =~= segments(b0));
    } else {
        lemma_segments_join(base, p);
    }
}

/// The workspace's local directory is the base path followed by the
/// workspace, segment by segment (the workspace alone without a base path).
pub proof fn lemma_workspace_root_segments(v: WorkspaceView, ws: Seq<char>)
    ensures
        segments(workspace_root(v, ws)) == match v.base_path {
            Some(b) => segments(b) + segments(ws),
            None => segments(ws),
        },
{
    lemma_strip_leading_start(ws, '/');
    lemma_segments_strip_leading(ws);
    if let Some(b) = v.base_path {
        lemma_path_join_segments(b, strip_leading(ws, '/'));
    }
}

/// Path alignment, local side: the local path of a relative path is the
/// workspace's local directory followed by the relative path's segments,
/// which are its cloud location under the container root.  So the local
/// tree of the workspace mirrors the container.
pub proof fn lemma_paths_align(v: WorkspaceView, relative: Seq<char>)
    requires
        v.workspace is Some,
    ensures
        segments(resolved(v, relative)->0) == segments(workspace_root(v, v.workspace->0)) + cloud_location(relative),
{
    let ws = v.workspace->0;
    let rel = strip_leading(relative, '/');
    let root = workspace_root(v, ws);
    lemma_strip_leading_start(relative, '/');
    lemma_segments_strip_leading(relative);
    if rel.len() == 0 {
        assert(segments(rel) =~= Seq::<Seq<char>>::empty());
        assert(segments(root) + segments(relative) =~= segments(root));
    } else {
        lemma_path_join_segments(root, rel);
    }
}

/// Leading separators of a relative path do not matter: `/p` and `p`
/// resolve to the same local path.
pub proof fn lemma_resolve_ignores_leading_slash(v: WorkspaceView, relative: Seq<char>)
    ensures
        resolved(v, seq!['/'] + relative) == resolved(v, relative),
{
    assert((seq!['/'] + relative).drop_first() =~= relative);
}

/// Setting the workspace makes every relative path resolve under it.
pub proof fn lemma_resolve_after_set(v: WorkspaceView, w: Seq<char>, relative: Seq<char>)
    ensures
        resolved(WorkspaceView { workspace: Some(w), ..v }, relative) == Some(
            if strip_leading(relative, '/').len() == 0 {
                workspace_root(v, w)
            } else {
                path_join(workspace_root(v, w), strip_leading(relative, '/'))
            },
        ),
        resolved(WorkspaceView { workspace: None, ..v }, relative) is None,
{
}

} // verus!
