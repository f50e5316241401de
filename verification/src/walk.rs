//! Descending a cloud folder path one folder at a time.  Each step needs the
//! listing of the current folder (or the creation of a missing one) from the
//! drive; the caller performs that request and hands the outcome back.
use vstd::prelude::*;
use crate::cloud::{first_folder, is_folder_named, item_views, find_folder, lemma_first_folder_found, root_folder, root_folder_id, CloudItem, CloudItemView};
use crate::error::{ErrorCode, VfsError, VfsResult};
use crate::text::{concat, views};

verus! {

/// What a folder walk needs next.
pub enum WalkAction {
    /// List the children of this folder.
    Search { parent_id: String },
    /// Create folder `name` inside this folder.
    Create { name: String, parent_id: String },
    /// The whole path is resolved to this folder.
    Arrived { folder_id: String },
    /// The walk stopped on this error.
    Failed { error: VfsError },
}

/// A walk down the folders `parts`, starting at the container root.
pub struct FolderWalk {
    parts: Vec<String>,
    next: usize,
    parent_id: String,
    create_missing: bool,
    exact_mime: bool,
    creating: bool,
    failure: Option<VfsError>,
}

/// The state of a walk as values.
pub struct WalkView {
    pub parts: Seq<Seq<char>>,
    /// How many folders have been resolved.
    pub next: int,
    /// The id of the last folder resolved (the root at first).
    pub parent_id: Seq<char>,
    pub create_missing: bool,
    pub exact_mime: bool,
    /// A creation of `parts[next]` is due.
    pub creating: bool,
    /// The code and message the walk stopped on.
    pub failure: Option<(ErrorCode, Seq<char>)>,
}

impl View for FolderWalk {
    type V = WalkView;

    closed spec fn view(&self) -> WalkView {
        WalkView {
            parts: views(self.parts@),
            next: self.next as int,
            parent_id: self.parent_id@,
            create_missing: self.create_missing,
            exact_mime: self.exact_mime,
            creating: self.creating,
            failure: match self.failure {
                Some(e) => Some((e.code, e.message@)),
                None => None,
            },
        }
    }
}

/// The walk waits for the listing of its current folder.
pub open spec fn awaits_listing(w: WalkView) -> bool {
    w.failure is None && w.next < w.parts.len() && !w.creating
}

/// The walk waits for the creation of its next folder.
pub open spec fn awaits_creation(w: WalkView) -> bool {
    w.failure is None && w.next < w.parts.len() && w.creating
}

/// The message of a folder that was looked up and not found.
pub open spec fn folder_missing_message(name: Seq<char>) -> Seq<char> {
    "Folder '"@ + name + "' not found"@
}

/// The walk after the listing of its current folder: it descends into the
/// first listed folder of the next name that has an id; when there is none
/// (or the listing failed) it either prepares to create the folder, or
/// stops with the listing's error or `PathNotFound`.
pub open spec fn after_listing(w: WalkView, listing: Result<Seq<crate::cloud::CloudItemView>, (ErrorCode, Seq<char>)>) -> WalkView {
    let name = w.parts[w.next];
    let found: Option<Seq<char>> = match listing {
        Ok(items) => match first_folder(items, name, w.exact_mime) {
            Some(i) => items[i].id,
            None => None,
        },
        Err(_) => None,
    };
    match found {
        Some(id) => WalkView { next: w.next + 1, parent_id: id, ..w },
        None => if w.create_missing {
            WalkView { creating: true, ..w }
        } else {
            match listing {
                Err(e) => WalkView { failure: Some(e), ..w },
                Ok(_) => WalkView {
                    failure: Some((ErrorCode::PathNotFound, folder_missing_message(name))),
                    ..w
                },
            }
        },
    }
}

/// The walk after an attempt to create its next folder.
pub open spec fn after_creation(w: WalkView, created: Result<Seq<char>, (ErrorCode, Seq<char>)>) -> WalkView {
    match created {
        Ok(id) => WalkView { next: w.next + 1, parent_id: id, creating: false, ..w },
        Err(e) => WalkView { failure: Some(e), ..w },
    }
}

/// The error of a result as values.
pub open spec fn error_view(e: VfsError) -> (ErrorCode, Seq<char>) {
    (e.code, e.message@)
}

/// What is left of a walk: two per folder still to resolve, one more
/// while its listing is due; nothing once the walk has stopped.
pub open spec fn walk_measure(w: WalkView) -> int {
    if w.failure is Some {
        0
    } else {
        2 * (w.parts.len() - w.next) + if w.creating {
            0int
        } else {
            1int
        }
    }
}

/// Every answer moves a walk on: after the listing or the creation it
/// waited for, less is left, the path is unchanged, and the walk has
/// resolved at most every folder.  So a walk that is answered ends, in at
/// most two requests per folder.
pub proof fn lemma_walk_progress(
    w: WalkView,
    listing: Result<Seq<crate::cloud::CloudItemView>, (ErrorCode, Seq<char>)>,
    created: Result<Seq<char>, (ErrorCode, Seq<char>)>,
)
    requires
        0 <= w.next <= w.parts.len(),
    ensures
        awaits_listing(w) ==> walk_measure(after_listing(w, listing)) < walk_measure(w)
            && after_listing(w, listing).parts == w.parts
            && after_listing(w, listing).next <= w.parts.len(),
        awaits_creation(w) ==> walk_measure(after_creation(w, created)) < walk_measure(w)
            && after_creation(w, created).parts == w.parts
            && after_creation(w, created).next <= w.parts.len(),
{
}

/// A walk descends into the folder it finds: when the listing of its
/// current folder holds a folder named as the next part (the first such
/// folder having an id), the walk has resolved one more part and stands in
/// that folder.
pub proof fn lemma_walk_descends(w: WalkView, items: Seq<CloudItemView>, i: int)
    requires
        awaits_listing(w),
        0 <= w.next,
        0 <= i < items.len(),
        is_folder_named(items[i], w.parts[w.next], w.exact_mime),
        forall|k: int| 0 <= k < i ==> !is_folder_named(#[trigger] items[k], w.parts[w.next], w.exact_mime),
        items[i].id is Some,
    ensures
        after_listing(w, Ok(items)).next == w.next + 1,
        after_listing(w, Ok(items)).parent_id == items[i].id->0,
        after_listing(w, Ok(items)).failure is None,
        after_listing(w, Ok(items)).parts == w.parts,
{
    lemma_first_folder_found(items, w.parts[w.next], w.exact_mime);
    match first_folder(items, w.parts[w.next], w.exact_mime) {
        Some(j) => {
            if j < i {
            } else if j > i {
                assert(!is_folder_named(items[i], w.parts[w.next], w.exact_mime));
            }
        },
        None => {
            assert(!is_folder_named(items[i], w.parts[w.next], w.exact_mime));
        },
    }
}

/// A folder missing from the listing is created when the walk may create
/// folders (the walk then waits for that creation in the same place);
/// otherwise the walk stops with `PathNotFound` naming the folder.
pub proof fn lemma_walk_missing_folder(w: WalkView, items: Seq<CloudItemView>)
    requires
        awaits_listing(w),
        0 <= w.next,
        forall|k: int| 0 <= k < items.len() ==> !is_folder_named(#[trigger] items[k], w.parts[w.next], w.exact_mime),
    ensures
        w.create_missing ==> after_listing(w, Ok(items)).creating && after_listing(w, Ok(items)).next == w.next
            && after_listing(w, Ok(items)).parent_id == w.parent_id && after_listing(w, Ok(items)).failure is None,
        !w.create_missing ==> after_listing(w, Ok(items)).failure == Some(
            (ErrorCode::PathNotFound, "Folder '"@ + w.parts[w.next] + "' not found"@),
        ),
{
    lemma_first_folder_found(items, w.parts[w.next], w.exact_mime);
    if let Some(j) = first_folder(items, w.parts[w.next], w.exact_mime) {
        assert(!is_folder_named(items[j], w.parts[w.next], w.exact_mime));
    }
}

impl FolderWalk {
    pub closed spec fn well_formed(&self) -> bool {
        &&& self.next <= self.parts@.len()
        &&& self.creating ==> self.create_missing && self.next < self.parts@.len()
    }

    /// A walk down `parts` from the root.  With `create_missing`, a folder
    /// that is not found is created; with `exact_mime`, a folder must carry
    /// exactly the folder MIME type, otherwise a type containing `folder`.
    pub fn new(parts: Vec<String>, create_missing: bool, exact_mime: bool) -> (w: FolderWalk)
        ensures
            w.well_formed(),
            w@ == (WalkView {
                parts: views(parts@),
                next: 0,
                parent_id: root_folder_id(),
                create_missing,
                exact_mime,
                creating: false,
                failure: None,
            }),
    {
        FolderWalk {
            parts,
            next: 0,
            parent_id: root_folder(),
            create_missing,
            exact_mime,
            creating: false,
            failure: None,
        }
    }

    /// What the walk needs next.
    pub fn next_action(&self) -> (a: WalkAction)
        requires
            self.well_formed(),
        ensures
            match a {
                WalkAction::Failed { error } => self@.failure == Some(error_view(error)),
                WalkAction::Arrived { folder_id } => self@.failure is None && self@.next
                    == self@.parts.len() && folder_id@ == self@.parent_id,
                WalkAction::Create { name, parent_id } => awaits_creation(self@) && name@
                    == self@.parts[self@.next] && parent_id@ == self@.parent_id,
                WalkAction::Search { parent_id } => awaits_listing(self@) && parent_id@
                    == self@.parent_id,
            },
    {
        match &self.failure {
            Some(e) => WalkAction::Failed { error: VfsError { code: e.code, message: e.message.clone() } },
            None => if self.next == self.parts.len() {
                WalkAction::Arrived { folder_id: self.parent_id.clone() }
            } else if self.creating {
                proof {
                    assert(views(self.parts@)[self.next as int] == self.parts@[self.next as int]@);
                }
                WalkAction::Create { name: self.parts[self.next].clone(), parent_id: self.parent_id.clone() }
            } else {
                WalkAction::Search { parent_id: self.parent_id.clone() }
            },
        }
    }

    /// Takes in the listing of the current folder.
    pub fn on_listing(&mut self, listing: VfsResult<Vec<CloudItem>>)
        requires
            old(self).well_formed(),
            awaits_listing(old(self)@),
        ensures
            final(self).well_formed(),
            final(self)@ == after_listing(
                old(self)@,
                match listing {
                    Ok(items) => Ok(item_views(items@)),
                    Err(e) => Err(error_view(e)),
                },
            ),
    {
        proof {
            assert(views(self.parts@).len() == self.parts@.len());
            assert(self@.next == self.next as int);
            assert(self.next < self.parts@.len());
        }
        let name = self.parts[self.next].clone();
        proof {
            assert(views(self.parts@)[self.next as int] == name@);
        }
        let found = match &listing {
            Ok(items) => find_folder(items, name.as_str(), self.exact_mime),
            Err(_) => None,
        };
        match found {
            Some(id) => {
                let n = self.next;
                let total = self.parts.len();
                assert(n < total);
                self.parent_id = id;
                self.next = n + 1;
            },
            None => {
                if self.create_missing {
                    self.creating = true;
                } else {
                    match listing {
                        Err(e) => {
                            self.failure = Some(e);
                        },
                        Ok(_) => {
                            let head = concat("Folder '", name.as_str());
                            let message = concat(head.as_str(), "' not found");
                            self.failure = Some(VfsError { code: ErrorCode::PathNotFound, message });
                        },
                    }
                }
            },
        }
    }

    /// Takes in the outcome of creating the next folder: its id, or an error.
    pub fn on_created(&mut self, created: VfsResult<String>)
        requires
            old(self).well_formed(),
            awaits_creation(old(self)@),
        ensures
            final(self).well_formed(),
            final(self)@ == after_creation(
                old(self)@,
                match created {
                    Ok(id) => Ok(id@),
                    Err(e) => Err(error_view(e)),
                },
            ),
    {
        proof {
            assert(views(self.parts@).len() == self.parts@.len());
        }
        match created {
            Ok(id) => {
                let n = self.next;
                let total = self.parts.len();
                assert(n < total);
                self.parent_id = id;
                self.next = n + 1;
                self.creating = false;
            },
            Err(e) => {
                self.failure = Some(e);
            },
        }
    }
}

} // verus!
