//! Directory listing: the entries found locally and in the cloud, merged
//! into one list sorted by name.
use vstd::prelude::*;
use crate::error::{ErrorCode, VfsError, VfsResult};
use crate::cloud::{edit_time_of, edited_seconds, item_views, mime_is_folder, CloudItem, CloudItemView};
use crate::text::{concat, decimal, u64_text, same_text, starts_with_char, views};
use crate::order::{name_less, name_lt, lemma_name_asymmetric, lemma_name_total, lemma_name_transitive, lemma_name_irreflexive};

verus! {

/// Where a listed entry was found.
pub const SOURCE_LOCAL: u32 = 1;
pub const SOURCE_CLOUD: u32 = 2;

/// One entry of a directory listing.
#[derive(Debug)]
pub struct FileInfo {
    pub name: String,
    /// Last modification, in seconds since the Unix epoch.
    pub modified_time: u64,
    /// Size in bytes; 0 for a directory.
    pub size: u64,
    /// 1: local, 2: cloud.
    pub source: u32,
    pub is_directory: bool,
}

pub struct FileInfoView {
    pub name: Seq<char>,
    pub modified_time: u64,
    pub size: u64,
    pub source: u32,
    pub is_directory: bool,
}

impl View for FileInfo {
    type V = FileInfoView;

    open spec fn view(&self) -> FileInfoView {
        FileInfoView {
            name: self.name@,
            modified_time: self.modified_time,
            size: self.size,
            source: self.source,
            is_directory: self.is_directory,
        }
    }
}

/// The views of a sequence of entries.
pub open spec fn info_views(v: Seq<FileInfo>) -> Seq<FileInfoView> {
    v.map_values(|f: FileInfo| f@)
}

impl FileInfo {
    /// A copy of this entry.
    pub fn duplicate(&self) -> (r: FileInfo)
        ensures
            r@ == self@,
    {
        FileInfo {
            name: self.name.clone(),
            modified_time: self.modified_time,
            size: self.size,
            source: self.source,
            is_directory: self.is_directory,
        }
    }
}

/// The result of listing a directory.
#[derive(Debug)]
pub struct ListDirResult {
    pub files: Vec<FileInfo>,
    pub error_code: ErrorCode,
    pub error_message: Option<String>,
}

impl ListDirResult {
    pub fn success(files: Vec<FileInfo>) -> (r: ListDirResult)
        ensures
            r.files@ == files@,
            r.error_code == ErrorCode::Success,
            r.error_message is None,
    {
        ListDirResult { files, error_code: ErrorCode::Success, error_message: None }
    }

    pub fn error(code: ErrorCode, message: String) -> (r: ListDirResult)
        ensures
            r.files@.len() == 0,
            r.error_code == code,
            r.error_message == Some(message),
    {
        ListDirResult { files: Vec::new(), error_code: code, error_message: Some(message) }
    }
}

/// The entries by name after taking the local entries in order, a later
/// entry of a name replacing an earlier one.
pub open spec fn local_map(local: Seq<FileInfoView>) -> Map<Seq<char>, FileInfoView>
    decreases local.len(),
{
    if local.len() == 0 {
        Map::empty()
    } else {
        local_map(local.drop_last()).insert(local.last().name, local.last())
    }
}

/// One cloud entry taken into the merged entries: it is added when its name
/// is new, and replaces the entry of its name only when strictly newer.
pub open spec fn take_cloud(m: Map<Seq<char>, FileInfoView>, f: FileInfoView) -> Map<Seq<char>, FileInfoView> {
    if m.contains_key(f.name) {
        if f.modified_time > m[f.name].modified_time {
            m.insert(f.name, f)
        } else {
            m
        }
    } else {
        m.insert(f.name, f)
    }
}

/// The cloud entries taken into `m` in order.
pub open spec fn cloud_fold(m: Map<Seq<char>, FileInfoView>, cloud: Seq<FileInfoView>) -> Map<Seq<char>, FileInfoView>
    decreases cloud.len(),
{
    if cloud.len() == 0 {
        m
    } else {
        take_cloud(cloud_fold(m, cloud.drop_last()), cloud.last())
    }
}

/// The merged entries of a directory, by name.
pub open spec fn merged(local: Seq<FileInfoView>, cloud: Seq<FileInfoView>) -> Map<Seq<char>, FileInfoView> {
    cloud_fold(local_map(local), cloud)
}

/// The entries are in strictly increasing order of name.
pub open spec fn sorted_by_name(v: Seq<FileInfoView>) -> bool {
    forall|i: int, j: int| 0 <= i < j < v.len() ==> name_lt(#[trigger] v[i].name, #[trigger] v[j].name)
}

/// The entries list exactly the map: one entry per key, each equal to its map value.
pub open spec fn lists_map(v: Seq<FileInfoView>, m: Map<Seq<char>, FileInfoView>) -> bool {
    &&& forall|i: int| 0 <= i < v.len() ==> #[trigger] m.contains_key(v[i].name) && m[v[i].name] == v[i]
    &&& forall|n: Seq<char>| #[trigger] m.contains_key(n) ==> exists|i: int| 0 <= i < v.len() && v[i].name == n
}

/// Where a name stands in a sorted list: at `pos` when `found`, otherwise
/// `pos` is where it would be inserted.
fn locate(v: &Vec<FileInfo>, name: &String) -> (r: (bool, usize))
    requires
        sorted_by_name(info_views(v@)),
    ensures
        r.1 <= v@.len(),
        r.0 ==> r.1 < v@.len() && v@[r.1 as int].name@ == name@,
        !r.0 ==> (forall|k: int| 0 <= k < r.1 ==> name_lt(#[trigger] v@[k].name@, name@)),
        !r.0 ==> (forall|k: int| r.1 <= k < v@.len() ==> name_lt(name@, #[trigger] v@[k].name@)),
{
    let n = v.len();
    let mut i: usize = 0;
    while i < n
        invariant
            n == v@.len(),
            i <= n,
            sorted_by_name(info_views(v@)),
            forall|k: int| 0 <= k < i ==> name_lt(#[trigger] v@[k].name@, name@),
        decreases n - i,
    {
        if v[i].name == *name {
            return (true, i);
        }
        if name_less(name.as_str(), v[i].name.as_str()) {
            proof {
                assert forall|k: int| i <= k < v@.len() implies name_lt(name@, #[trigger] v@[k].name@) by {
                    if k > i {
                        assert(info_views(v@)[i as int].name == v@[i as int].name@);
                        assert(info_views(v@)[k].name == v@[k].name@);
                        lemma_name_transitive(name@, v@[i as int].name@, v@[k].name@);
                    }
                }
            }
            return (false, i);
        }
        proof {
            lemma_name_total(name@, v@[i as int].name@);
        }
        i = i + 1;
    }
    (false, n)
}


/// Entries with distinct names that are sorted and list `m` stay so when the
/// entry at `pos` is replaced by one of the same name.
proof fn lemma_replace_keeps_listing(v: Seq<FileInfoView>, m: Map<Seq<char>, FileInfoView>, pos: int, f: FileInfoView)
    requires
        sorted_by_name(v),
        lists_map(v, m),
        0 <= pos < v.len(),
        v[pos].name == f.name,
    ensures
        sorted_by_name(v.update(pos, f)),
        lists_map(v.update(pos, f), m.insert(f.name, f)),
{
    let w = v.update(pos, f);
    let m2 = m.insert(f.name, f);
    assert forall|i: int| 0 <= i < w.len() implies #[trigger] m2.contains_key(w[i].name) && m2[w[i].name] == w[i] by {
        if i != pos {
            assert(m.contains_key(v[i].name));
            if v[i].name == f.name {
                if i < pos {
                    assert(name_lt(v[i].name, v[pos].name));
                } else {
                    assert(name_lt(v[pos].name, v[i].name));
                }
                lemma_name_irreflexive(f.name);
            }
        }
    }
    assert forall|n: Seq<char>| #[trigger] m2.contains_key(n) implies exists|i: int| 0 <= i < w.len() && w[i].name == n by {
        if n == f.name {
            assert(w[pos].name == n);
        } else {
            let i = choose|i: int| 0 <= i < v.len() && v[i].name == n;
            assert(w[i].name == n);
        }
    }
    assert forall|i: int, j: int| 0 <= i < j < w.len() implies name_lt(#[trigger] w[i].name, #[trigger] w[j].name) by {
        assert(name_lt(v[i].name, v[j].name));
    }
}

/// Inserting at `pos` an entry whose name sorts after all before `pos` and
/// before all from `pos` on keeps the entries sorted and listing the map.
proof fn lemma_insert_keeps_listing(v: Seq<FileInfoView>, m: Map<Seq<char>, FileInfoView>, pos: int, f: FileInfoView)
    requires
        sorted_by_name(v),
        lists_map(v, m),
        0 <= pos <= v.len(),
        forall|k: int| 0 <= k < pos ==> name_lt(#[trigger] v[k].name, f.name),
        forall|k: int| pos <= k < v.len() ==> name_lt(f.name, #[trigger] v[k].name),
    ensures
        sorted_by_name(v.insert(pos, f)),
        lists_map(v.insert(pos, f), m.insert(f.name, f)),
{
    let w = v.insert(pos, f);
    let m2 = m.insert(f.name, f);
    assert forall|i: int, j: int| 0 <= i < j < w.len() implies name_lt(#[trigger] w[i].name, #[trigger] w[j].name) by {
        if i < pos && j < pos {
            assert(name_lt(v[i].name, v[j].name));
        } else if i < pos && j == pos {
        } else if i < pos {
            lemma_name_transitive(v[i].name, f.name, v[j - 1].name);
        } else if i == pos {
        } else {
            assert(name_lt(v[i - 1].name, v[j - 1].name));
        }
    }
    assert forall|i: int| 0 <= i < w.len() implies #[trigger] m2.contains_key(w[i].name) && m2[w[i].name] == w[i] by {
        if i < pos {
            assert(w[i] == v[i]);
            if v[i].name == f.name {
                lemma_name_irreflexive(f.name);
            }
        } else if i > pos {
            assert(w[i] == v[i - 1]);
            if v[i - 1].name == f.name {
                lemma_name_irreflexive(f.name);
            }
        }
    }
    assert forall|n: Seq<char>| #[trigger] m2.contains_key(n) implies exists|i: int| 0 <= i < w.len() && w[i].name == n by {
        if n == f.name {
            assert(w[pos].name == n);
        } else {
            let i = choose|i: int| 0 <= i < v.len() && v[i].name == n;
            if i < pos {
                assert(w[i].name == n);
            } else {
                assert(w[i + 1].name == n);
            }
        }
    }
}

/// Puts `f` into the sorted entries `v`, replacing the entry of its name if
/// there is one, or when `only_if_newer`, replacing it only when `f` is
/// strictly newer; a new name is inserted in order.
fn put_entry(v: &mut Vec<FileInfo>, f: FileInfo, only_if_newer: bool, Ghost(m): Ghost<Map<Seq<char>, FileInfoView>>)
    requires
        sorted_by_name(info_views(old(v)@)),
        lists_map(info_views(old(v)@), m),
    ensures
        sorted_by_name(info_views(final(v)@)),
        lists_map(
            info_views(final(v)@),
            if only_if_newer { take_cloud(m, f@) } else { m.insert(f@.name, f@) },
        ),
{
    let ghost before = info_views(v@);
    let (found, pos) = locate(v, &f.name);
    if found {
        proof {
            assert(before[pos as int].name == f@.name);
        }
        if !only_if_newer || f.modified_time > v[pos].modified_time {
            proof {
                lemma_replace_keeps_listing(before, m, pos as int, f@);
                assert(m.contains_key(before[pos as int].name));
                assert(m[f@.name] == before[pos as int]);
            }
            v.set(pos, f);
            proof {
                assert(info_views(v@) =~= before.update(pos as int, v@[pos as int]@));
            }
        } else {
            proof {
                assert(m.contains_key(before[pos as int].name));
                assert(m[f@.name] == before[pos as int]);
            }
        }
    } else {
        proof {
            assert forall|k: int| 0 <= k < pos implies name_lt(#[trigger] before[k].name, f@.name) by {
                assert(before[k].name == v@[k].name@);
            }
            assert forall|k: int| pos <= k < before.len() implies name_lt(f@.name, #[trigger] before[k].name) by {
                assert(before[k].name == v@[k].name@);
            }
            if m.contains_key(f@.name) {
                let i = choose|i: int| 0 <= i < before.len() && before[i].name == f@.name;
                if i < pos {
                    assert(name_lt(before[i].name, f@.name));
                } else {
                    assert(name_lt(f@.name, before[i].name));
                }
                lemma_name_irreflexive(f@.name);
            }
            lemma_insert_keeps_listing(before, m, pos as int, f@);
        }
        let ghost fv = f@;
        v.insert(pos, f);
        proof {
            assert(info_views(v@) =~= before.insert(pos as int, fv));
        }
    }
}

/// Merges the local and the cloud entries of a directory: every name of
/// either side appears once; a name on both sides keeps the cloud entry
/// only when it is strictly newer; the result is sorted by name.
pub fn merge_files(local_files: Vec<FileInfo>, cloud_files: Vec<FileInfo>) -> (r: Vec<FileInfo>)
    ensures
        sorted_by_name(info_views(r@)),
        lists_map(info_views(r@), merged(info_views(local_files@), info_views(cloud_files@))),
{
    let mut r: Vec<FileInfo> = Vec::new();
    let ghost lv = info_views(local_files@);
    let ghost cv = info_views(cloud_files@);
    let mut i: usize = 0;
    proof {
        assert(info_views(r@) =~= Seq::<FileInfoView>::empty());
    }
    while i < local_files.len()
        invariant
            lv == info_views(local_files@),
            i <= local_files@.len(),
            sorted_by_name(info_views(r@)),
            lists_map(info_views(r@), local_map(lv.take(i as int))),
        decreases local_files@.len() - i,
    {
        let f = local_files[i].duplicate();
        proof {
            assert(lv.take(i + 1).drop_last() =~= lv.take(i as int));
            assert(lv.take(i + 1).last() == f@);
        }
        put_entry(&mut r, f, false, Ghost(local_map(lv.take(i as int))));
        i = i + 1;
    }
    proof {
        assert(lv.take(local_files@.len() as int) =~= lv);
    }
    let mut j: usize = 0;
    while j < cloud_files.len()
        invariant
            lv == info_views(local_files@),
            cv == info_views(cloud_files@),
            j <= cloud_files@.len(),
            sorted_by_name(info_views(r@)),
            lists_map(info_views(r@), cloud_fold(local_map(lv), cv.take(j as int))),
        decreases cloud_files@.len() - j,
    {
        let f = cloud_files[j].duplicate();
        proof {
            assert(cv.take(j + 1).drop_last() =~= cv.take(j as int));
            assert(cv.take(j + 1).last() == f@);
        }
        put_entry(&mut r, f, true, Ghost(cloud_fold(local_map(lv), cv.take(j as int))));
        j = j + 1;
    }
    proof {
        assert(cv.take(cloud_files@.len() as int) =~= cv);
    }
    r
}


/// No two entries share a name, as in one directory.
pub open spec fn distinct_names(v: Seq<FileInfoView>) -> bool {
    forall|i: int, j: int| 0 <= i < j < v.len() ==> #[trigger] v[i].name != #[trigger] v[j].name
}

/// Some entry has name `n`.
pub open spec fn has_name(v: Seq<FileInfoView>, n: Seq<char>) -> bool {
    exists|i: int| 0 <= i < v.len() && #[trigger] v[i].name == n
}

proof fn lemma_local_map(local: Seq<FileInfoView>, n: Seq<char>)
    requires
        distinct_names(local),
    ensures
        local_map(local).contains_key(n) <==> has_name(local, n),
        forall|i: int| 0 <= i < local.len() && #[trigger] local[i].name == n ==> local_map(local)[n] == local[i],
    decreases local.len(),
{
    if local.len() > 0 {
        let init = local.drop_last();
        assert(distinct_names(init)) by {
            assert forall|i: int, j: int| 0 <= i < j < init.len() implies #[trigger] init[i].name != #[trigger] init[j].name by {
                assert(init[i] == local[i] && init[j] == local[j]);
            }
        }
        lemma_local_map(init, n);
        if has_name(local, n) {
            let i = choose|i: int| 0 <= i < local.len() && #[trigger] local[i].name == n;
            if i < local.len() - 1 {
                assert(init[i].name == n);
            }
        }
        if has_name(init, n) {
            let i = choose|i: int| 0 <= i < init.len() && #[trigger] init[i].name == n;
            assert(local[i].name == n);
        }
        assert forall|i: int| 0 <= i < local.len() && #[trigger] local[i].name == n implies local_map(local)[n] == local[i] by {
            if i < local.len() - 1 {
                assert(local[i].name != local[local.len() - 1].name);
                assert(init[i].name == n);
            }
        }
    }
}

/// What the merge keeps for a name that the cloud list holds once, at `f`,
/// given what the local entries held for it.
pub open spec fn pick(prev: Map<Seq<char>, FileInfoView>, f: FileInfoView) -> FileInfoView {
    if prev.contains_key(f.name) && f.modified_time <= prev[f.name].modified_time {
        prev[f.name]
    } else {
        f
    }
}

proof fn lemma_cloud_fold(m: Map<Seq<char>, FileInfoView>, cloud: Seq<FileInfoView>, n: Seq<char>)
    requires
        distinct_names(cloud),
    ensures
        !has_name(cloud, n) ==> (cloud_fold(m, cloud).contains_key(n) == m.contains_key(n)
            && (m.contains_key(n) ==> cloud_fold(m, cloud)[n] == m[n])),
        forall|j: int| 0 <= j < cloud.len() && #[trigger] cloud[j].name == n ==>
            cloud_fold(m, cloud).contains_key(n) && cloud_fold(m, cloud)[n] == pick(m, cloud[j]),
    decreases cloud.len(),
{
    if cloud.len() > 0 {
        let init = cloud.drop_last();
        let last = cloud.last();
        assert(distinct_names(init)) by {
            assert forall|i: int, j: int| 0 <= i < j < init.len() implies #[trigger] init[i].name != #[trigger] init[j].name by {
                assert(init[i] == cloud[i] && init[j] == cloud[j]);
            }
        }
        lemma_cloud_fold(m, init, n);
        if has_name(init, n) {
            let i = choose|i: int| 0 <= i < init.len() && #[trigger] init[i].name == n;
            assert(cloud[i].name == n);
        }
        if last.name == n {
            assert(!has_name(init, n)) by {
                if has_name(init, n) {
                    let i = choose|i: int| 0 <= i < init.len() && #[trigger] init[i].name == n;
                    assert(cloud[i].name == cloud[cloud.len() - 1].name);
                }
            }
        }
        assert forall|j: int| 0 <= j < cloud.len() && #[trigger] cloud[j].name == n implies
            cloud_fold(m, cloud).contains_key(n) && cloud_fold(m, cloud)[n] == pick(m, cloud[j]) by {
            if j < cloud.len() - 1 {
                assert(cloud[j].name != cloud[cloud.len() - 1].name);
                assert(init[j].name == n);
            }
        }
    }
}

/// The fusion rule of listings: within one directory (no name twice on a
/// side), a name found on either side is listed; a name found on one side
/// only keeps that entry; a name found on both keeps the cloud entry when it
/// is strictly newer, and the local entry otherwise.
pub proof fn lemma_merge_keeps_newer(local: Seq<FileInfoView>, cloud: Seq<FileInfoView>, n: Seq<char>)
    requires
        distinct_names(local),
        distinct_names(cloud),
    ensures
        merged(local, cloud).contains_key(n) <==> has_name(local, n) || has_name(cloud, n),
        forall|i: int| 0 <= i < local.len() && #[trigger] local[i].name == n && !has_name(cloud, n)
            ==> merged(local, cloud)[n] == local[i],
        forall|j: int| 0 <= j < cloud.len() && #[trigger] cloud[j].name == n && !has_name(local, n)
            ==> merged(local, cloud)[n] == cloud[j],
        forall|i: int, j: int| 0 <= i < local.len() && 0 <= j < cloud.len()
            && #[trigger] local[i].name == n && #[trigger] cloud[j].name == n
            ==> merged(local, cloud)[n] == (if cloud[j].modified_time > local[i].modified_time {
                cloud[j]
            } else {
                local[i]
            }),
{
    lemma_local_map(local, n);
    lemma_cloud_fold(local_map(local), cloud, n);
    if has_name(cloud, n) {
        let j = choose|j: int| 0 <= j < cloud.len() && #[trigger] cloud[j].name == n;
        assert(merged(local, cloud).contains_key(n));
    }
    assert forall|j: int| 0 <= j < cloud.len() && #[trigger] cloud[j].name == n && !has_name(local, n)
        implies merged(local, cloud)[n] == cloud[j] by {
    }
}


/// Lists sorted by name that list the same map are the same list.
proof fn lemma_sorted_listing_unique(a: Seq<FileInfoView>, b: Seq<FileInfoView>, m: Map<Seq<char>, FileInfoView>)
    requires
        sorted_by_name(a),
        sorted_by_name(b),
        lists_map(a, m),
        lists_map(b, m),
    ensures
        a == b,
    decreases a.len(),
{
    if a.len() == 0 {
        if b.len() > 0 {
            assert(m.contains_key(b[0].name));
        }
        assert(a =~= b);
    } else if b.len() == 0 {
        assert(m.contains_key(a[0].name));
    } else {
        let n = a[0].name;
        let k = b[0].name;
        assert(m.contains_key(n));
        assert(m.contains_key(k));
        if n != k {
            let j = choose|j: int| 0 <= j < b.len() && b[j].name == n;
            let i = choose|i: int| 0 <= i < a.len() && a[i].name == k;
            assert(j != 0);
            assert(i != 0);
            assert(name_lt(b[0].name, b[j].name));
            assert(name_lt(a[0].name, a[i].name));
            lemma_name_asymmetric(k, n);
        }
        let m2 = m.remove(n);
        let a2 = a.drop_first();
        let b2 = b.drop_first();
        assert forall|i: int| 0 <= i < a2.len() implies #[trigger] m2.contains_key(a2[i].name) && m2[a2[i].name] == a2[i] by {
            assert(a2[i] == a[i + 1]);
            assert(name_lt(a[0].name, a[i + 1].name));
            lemma_name_irreflexive(n);
        }
        assert forall|i: int| 0 <= i < b2.len() implies #[trigger] m2.contains_key(b2[i].name) && m2[b2[i].name] == b2[i] by {
            assert(b2[i] == b[i + 1]);
            assert(name_lt(b[0].name, b[i + 1].name));
            lemma_name_irreflexive(n);
        }
        assert forall|x: Seq<char>| #[trigger] m2.contains_key(x) implies exists|i: int| 0 <= i < a2.len() && a2[i].name == x by {
            assert(x != n);
            assert(m.contains_key(x));
            let i = choose|i: int| 0 <= i < a.len() && a[i].name == x;
            assert(i != 0);
            assert(a2[i - 1].name == x);
        }
        assert forall|x: Seq<char>| #[trigger] m2.contains_key(x) implies exists|i: int| 0 <= i < b2.len() && b2[i].name == x by {
            assert(x != n);
            assert(m.contains_key(x));
            let i = choose|i: int| 0 <= i < b.len() && b[i].name == x;
            assert(i != 0);
            assert(b2[i - 1].name == x);
        }
        assert(sorted_by_name(a2)) by {
            assert forall|i: int, j: int| 0 <= i < j < a2.len() implies name_lt(#[trigger] a2[i].name, #[trigger] a2[j].name) by {
                assert(name_lt(a[i + 1].name, a[j + 1].name));
            }
        }
        assert(sorted_by_name(b2)) by {
            assert forall|i: int, j: int| 0 <= i < j < b2.len() implies name_lt(#[trigger] b2[i].name, #[trigger] b2[j].name) by {
                assert(name_lt(b[i + 1].name, b[j + 1].name));
            }
        }
        lemma_sorted_listing_unique(a2, b2, m2);
        assert(a[0] == m[n] && b[0] == m[k]);
        assert(a =~= seq![a[0]] + a2);
        assert(b =~= seq![b[0]] + b2);
    }
}

/// A reordering of a list holds the same entries.
proof fn lemma_reordered_entries(a: Seq<FileInfoView>, b: Seq<FileInfoView>)
    requires
        a.to_multiset() == b.to_multiset(),
    ensures
        forall|x: FileInfoView| a.contains(x) <==> b.contains(x),
{
    a.to_multiset_ensures();
    b.to_multiset_ensures();
    assert forall|x: FileInfoView| a.contains(x) <==> b.contains(x) by {
        assert(a.contains(x) <==> a.to_multiset().count(x) > 0);
        assert(b.contains(x) <==> b.to_multiset().count(x) > 0);
    }
}

/// A name present on a side is present on its reordering.
proof fn lemma_reordered_name(a: Seq<FileInfoView>, b: Seq<FileInfoView>, n: Seq<char>)
    requires
        forall|x: FileInfoView| a.contains(x) <==> b.contains(x),
    ensures
        has_name(a, n) <==> has_name(b, n),
        forall|i: int| 0 <= i < a.len() && #[trigger] a[i].name == n ==> exists|j: int| 0 <= j < b.len() && b[j] == a[i],
{
    assert forall|i: int| 0 <= i < a.len() && #[trigger] a[i].name == n implies exists|j: int| 0 <= j < b.len() && b[j] == a[i] by {
        assert(a.contains(a[i]));
        assert(b.contains(a[i]));
    }
    if has_name(a, n) {
        let i = choose|i: int| 0 <= i < a.len() && #[trigger] a[i].name == n;
        assert(a.contains(a[i]));
        assert(b.contains(a[i]));
        let j = choose|j: int| 0 <= j < b.len() && b[j] == a[i];
        assert(b[j].name == n);
    }
    if has_name(b, n) {
        let j = choose|j: int| 0 <= j < b.len() && #[trigger] b[j].name == n;
        assert(b.contains(b[j]));
        assert(a.contains(b[j]));
        let i = choose|i: int| 0 <= i < a.len() && a[i] == b[j];
        assert(a[i].name == n);
    }
}

/// The merged entry of one name is the same after reordering either side.
proof fn lemma_merged_same_at(
    l1: Seq<FileInfoView>,
    c1: Seq<FileInfoView>,
    l2: Seq<FileInfoView>,
    c2: Seq<FileInfoView>,
    n: Seq<char>,
)
    requires
        distinct_names(l1),
        distinct_names(c1),
        distinct_names(l2),
        distinct_names(c2),
        forall|x: FileInfoView| l1.contains(x) <==> l2.contains(x),
        forall|x: FileInfoView| c1.contains(x) <==> c2.contains(x),
    ensures
        merged(l1, c1).contains_key(n) == merged(l2, c2).contains_key(n),
        merged(l1, c1).contains_key(n) ==> merged(l1, c1)[n] == merged(l2, c2)[n],
{
    lemma_merge_keeps_newer(l1, c1, n);
    lemma_merge_keeps_newer(l2, c2, n);
    lemma_reordered_name(l1, l2, n);
    lemma_reordered_name(c1, c2, n);
    if has_name(l1, n) {
        let i = choose|i: int| 0 <= i < l1.len() && #[trigger] l1[i].name == n;
        let i2 = choose|j: int| 0 <= j < l2.len() && l2[j] == l1[i];
        assert(l2[i2].name == n);
        if has_name(c1, n) {
            let k = choose|k: int| 0 <= k < c1.len() && #[trigger] c1[k].name == n;
            let k2 = choose|j: int| 0 <= j < c2.len() && c2[j] == c1[k];
            assert(c2[k2].name == n);
        }
    } else if has_name(c1, n) {
        let k = choose|k: int| 0 <= k < c1.len() && #[trigger] c1[k].name == n;
        let k2 = choose|j: int| 0 <= j < c2.len() && c2[j] == c1[k];
        assert(c2[k2].name == n);
    }
}

/// The listing does not depend on the order in which either side lists
/// its entries: within one directory (no name twice on a side), reordering
/// the local or the cloud entries gives the same merged, sorted listing.
pub proof fn lemma_merge_order_independent(
    l1: Seq<FileInfoView>,
    c1: Seq<FileInfoView>,
    l2: Seq<FileInfoView>,
    c2: Seq<FileInfoView>,
    r1: Seq<FileInfoView>,
    r2: Seq<FileInfoView>,
)
    requires
        distinct_names(l1),
        distinct_names(c1),
        distinct_names(l2),
        distinct_names(c2),
        l1.to_multiset() == l2.to_multiset(),
        c1.to_multiset() == c2.to_multiset(),
        sorted_by_name(r1),
        lists_map(r1, merged(l1, c1)),
        sorted_by_name(r2),
        lists_map(r2, merged(l2, c2)),
    ensures
        r1 == r2,
{
    lemma_reordered_entries(l1, l2);
    lemma_reordered_entries(c1, c2);
    let m1 = merged(l1, c1);
    let m2 = merged(l2, c2);
    assert forall|n: Seq<char>| #[trigger] m1.contains_key(n) == m2.contains_key(n) by {
        lemma_merged_same_at(l1, c1, l2, c2, n);
    }
    assert forall|n: Seq<char>| #[trigger] m1.contains_key(n) implies m1[n] == m2[n] by {
        lemma_merged_same_at(l1, c1, l2, c2, n);
    }
    assert(m1 =~= m2);
    lemma_sorted_listing_unique(r1, r2, m1);
}

/// A local directory entry as listed: a directory has size 0.
pub fn local_entry(name: String, is_directory: bool, len: u64, modified_time: u64) -> (r: FileInfo)
    ensures
        r@ == (FileInfoView {
            name: name@,
            modified_time,
            size: if is_directory { 0 } else { len },
            source: SOURCE_LOCAL,
            is_directory,
        }),
{
    FileInfo { name, modified_time, size: if is_directory { 0 } else { len }, source: SOURCE_LOCAL, is_directory }
}

/// How a cloud item is listed: edit time in seconds (0 when unknown), a
/// directory when its MIME type contains `folder`; a directory has size 0,
/// a file the size reported (0 when unknown).
pub open spec fn cloud_entry_view(it: CloudItemView) -> FileInfoView {
    FileInfoView {
        name: it.file_name,
        modified_time: edited_seconds(it.edited_time),
        size: if mime_is_folder(it.mime_type, false) {
            0
        } else {
            match it.size {
                Some(n) => n,
                None => 0,
            }
        },
        source: SOURCE_CLOUD,
        is_directory: mime_is_folder(it.mime_type, false),
    }
}

pub fn cloud_entry(it: &CloudItem) -> (r: FileInfo)
    ensures
        r@ == cloud_entry_view(it@),
{
    let is_directory = match &it.mime_type {
        Some(m) => crate::text::contains_text(m.as_str(), "folder"),
        None => false,
    };
    FileInfo {
        name: it.file_name.clone(),
        modified_time: edit_time_of(&it.edited_time),
        size: if is_directory {
            0
        } else {
            match it.size {
                Some(n) => n,
                None => 0,
            }
        },
        source: SOURCE_CLOUD,
        is_directory,
    }
}

/// The listing entries of the items of a cloud folder, in order.
pub fn cloud_entries(items: &Vec<CloudItem>) -> (r: Vec<FileInfo>)
    ensures
        info_views(r@) == item_views(items@).map_values(|it: CloudItemView| cloud_entry_view(it)),
{
    let mut r: Vec<FileInfo> = Vec::new();
    let n = items.len();
    let mut i: usize = 0;
    while i < n
        invariant
            n == items@.len(),
            i <= n,
            info_views(r@) =~= item_views(items@).take(i as int).map_values(|it: CloudItemView| cloud_entry_view(it)),
        decreases n - i,
    {
        let e = cloud_entry(&items[i]);
        let ghost prev = r@;
        let ghost ev = e@;
        r.push(e);
        proof {
            let f = |it: CloudItemView| cloud_entry_view(it);
            assert(item_views(items@).take(i + 1) =~= item_views(items@).take(i as int).push(items@[i as int]@));
            assert(info_views(r@) =~= info_views(prev).push(ev));
            assert(item_views(items@).take(i + 1).map_values(f) =~= item_views(items@).take(i as int).map_values(f).push(f(items@[i as int]@)));
        }
        i = i + 1;
    }
    proof {
        assert(item_views(items@).take(n as int) =~= item_views(items@));
    }
    r
}

/// The entries found on one side: none when that side failed.
pub open spec fn side_entries(side: Result<Vec<FileInfo>, VfsError>) -> Seq<FileInfoView> {
    match side {
        Ok(v) => info_views(v@),
        Err(_) => Seq::empty(),
    }
}

/// The listing of a directory from what was found on each side: the two
/// are merged, and a side that failed is reported, not swallowed: the
/// result then carries that side's error code and message (the local
/// side's when both failed) beside the entries of the other side.
pub fn combine_listings(local: VfsResult<Vec<FileInfo>>, cloud: VfsResult<Vec<FileInfo>>) -> (r: ListDirResult)
    ensures
        sorted_by_name(info_views(r.files@)),
        lists_map(info_views(r.files@), merged(side_entries(local), side_entries(cloud))),
        match (local, cloud) {
            (Err(e), _) => r.error_code == e.code && r.error_message == Some(e.message),
            (Ok(_), Err(e)) => r.error_code == e.code && r.error_message == Some(e.message),
            (Ok(_), Ok(_)) => r.error_code == ErrorCode::Success && r.error_message is None,
        },
{
    let mut failure: Option<VfsError> = None;
    let local_files = match local {
        Ok(v) => v,
        Err(e) => {
            failure = Some(e);
            Vec::new()
        },
    };
    let cloud_files = match cloud {
        Ok(v) => v,
        Err(e) => {
            if failure.is_none() {
                failure = Some(e);
            }
            Vec::new()
        },
    };
    proof {
        if local is Err {
            assert(info_views(local_files@) =~= Seq::<FileInfoView>::empty());
        }
        if cloud is Err {
            assert(info_views(cloud_files@) =~= Seq::<FileInfoView>::empty());
        }
    }
    let files = merge_files(local_files, cloud_files);
    match failure {
        None => ListDirResult::success(files),
        Some(e) => ListDirResult { files, error_code: e.code, error_message: Some(e.message) },
    }
}

/// The folder a cloud listing reads, after the walk to it: a folder that
/// does not exist (`PathNotFound`) means there is nothing in the cloud to
/// list; any other failure of the walk is an error.
pub fn cloud_folder_outcome(walked: VfsResult<String>) -> (r: VfsResult<Option<String>>)
    ensures
        match walked {
            Ok(id) => r == Ok::<Option<String>, VfsError>(Some(id)),
            Err(e) => if e.code == ErrorCode::PathNotFound {
                r == Ok::<Option<String>, VfsError>(None)
            } else {
                r == Err::<Option<String>, VfsError>(e)
            },
        },
{
    match walked {
        Ok(id) => Ok(Some(id)),
        Err(e) => if e.code == ErrorCode::PathNotFound {
            Ok(None)
        } else {
            Err(e)
        },
    }
}

/// The cloud side of a listing from the listing of the folder: a request
/// that failed is an error; items become entries.
pub fn cloud_listing(status: i32, parsed: Result<Vec<CloudItem>, String>) -> (r: VfsResult<Vec<FileInfo>>)
    ensures
        status != 200 ==> (r matches Err(e) && e.code == ErrorCode::NetworkError
            && e.message@ == "Cloud API returned status: "@ + crate::text::signed_decimal(status as int)),
        status == 200 ==> match parsed {
            Ok(items) => (r matches Ok(v) && info_views(v@) == item_views(items@).map_values(
                |it: CloudItemView| cloud_entry_view(it),
            )),
            Err(m) => (r matches Err(e) && e.code == ErrorCode::InvalidParameter
                && e.message@ == "Failed to parse cloud response: "@ + m@),
        },
{
    if status != 200 {
        return Err(crate::cloud::status_error("Cloud API returned status: ", status));
    }
    match parsed {
        Ok(items) => Ok(cloud_entries(&items)),
        Err(m) => Err(crate::cloud::parse_error(ErrorCode::InvalidParameter, "Failed to parse cloud response: ", m.as_str())),
    }
}


/// Whether a local entry belongs in the manifest sent to a peer: hidden
/// names (starting with `.`) are left out.
pub fn include_in_manifest(name: &str) -> (b: bool)
    ensures
        b == !(name@.len() > 0 && name@[0] == '.'),
{
    !starts_with_char(name, '.')
}

/// Whether an item lists `parent` among its parent folders.
pub open spec fn in_folder(it: CloudItemView, parent: Seq<char>) -> bool {
    match it.parent_folder {
        Some(ps) => ps.contains(parent),
        None => false,
    }
}

/// The line describing one item of a raw cloud listing.
pub open spec fn raw_line(it: CloudItemView) -> Seq<char> {
    "  "@ + (if mime_is_folder(it.mime_type, false) {
        "[DIR] "@
    } else {
        "[FILE]"@
    }) + " "@ + it.file_name + "  size="@ + (match it.size {
        Some(n) => decimal(n as nat) + " bytes"@,
        None => "-"@,
    }) + "  id="@ + (match it.id {
        Some(i) => i,
        None => "N/A"@,
    }) + "\n"@
}

/// The lines of the items that lie in `parent`, and how many there are.
pub open spec fn raw_lines(items: Seq<CloudItemView>, parent: Seq<char>) -> (Seq<char>, nat)
    decreases items.len(),
{
    if items.len() == 0 {
        (Seq::empty(), 0)
    } else {
        let (text, count) = raw_lines(items.drop_last(), parent);
        if in_folder(items.last(), parent) {
            (text + raw_line(items.last()), count + 1)
        } else {
            (text, count)
        }
    }
}

/// The raw listing of the cloud folder `path` (id `parent`): the items that
/// name it as a parent, one line each, or a note that there are none.
pub open spec fn raw_listing(path: Seq<char>, parent: Seq<char>, items: Seq<CloudItemView>) -> Seq<char> {
    let (text, count) = raw_lines(items, parent);
    if count == 0 {
        "Cloud path '"@ + path + "' is empty (no files found)"@
    } else {
        "Cloud path '"@ + path + "' (parent="@ + parent + "): "@ + decimal(count) + " files\n"@ + text
    }
}

fn lists_parent(parents: &Option<Vec<String>>, parent: &str) -> (b: bool)
    ensures
        b == match parents.deep_view() {
            Some(ps) => ps.contains(parent@),
            None => false,
        },
{
    match parents {
        None => false,
        Some(ps) => {
            let n = ps.len();
            let mut i: usize = 0;
            assert(parents.deep_view() == Some(ps.deep_view()));
            while i < n
                invariant
                    parents.deep_view() == Some(ps.deep_view()),
                    n == ps@.len(),
                    i <= n,
                    forall|k: int| 0 <= k < i ==> ps@[k]@ != parent@,
                decreases n - i,
            {
                if same_text(ps[i].as_str(), parent) {
                    proof {
                        assert(ps.deep_view()[i as int] == parent@);
                        assert(ps.deep_view().contains(parent@));
                    }
                    return true;
                }
                i = i + 1;
            }
            proof {
                assert(parents.deep_view() == Some(ps.deep_view()));
                if ps.deep_view().contains(parent@) {
                    let k = choose|k: int| 0 <= k < ps.deep_view().len() && ps.deep_view()[k] == parent@;
                    assert(ps@[k]@ == parent@);
                }
            }
            false
        },
    }
}

fn raw_line_text(it: &CloudItem) -> (r: String)
    ensures
        r@ == raw_line(it@),
{
    let is_dir = match &it.mime_type {
        Some(m) => crate::text::contains_text(m.as_str(), "folder"),
        None => false,
    };
    let kind = if is_dir { "[DIR] " } else { "[FILE]" };
    let a = concat("  ", kind);
    let b = concat(a.as_str(), " ");
    let c = concat(b.as_str(), it.file_name.as_str());
    let d = concat(c.as_str(), "  size=");
    let size = match it.size {
        Some(n) => {
            let digits = u64_text(n);
            concat(digits.as_str(), " bytes")
        },
        None => "-".to_owned(),
    };
    let e = concat(d.as_str(), size.as_str());
    let f = concat(e.as_str(), "  id=");
    let id = match &it.id {
        Some(i) => i.clone(),
        None => "N/A".to_owned(),
    };
    let g = concat(f.as_str(), id.as_str());
    concat(g.as_str(), "\n")
}

/// The text of a raw listing of cloud folder `path` whose id is `parent_id`.
pub fn raw_listing_text(path: &str, parent_id: &str, items: &Vec<CloudItem>) -> (r: String)
    ensures
        r@ == raw_listing(path@, parent_id@, item_views(items@)),
{
    let ghost iv = item_views(items@);
    let n = items.len();
    let mut text = String::new();
    let mut count: u64 = 0;
    let mut i: usize = 0;
    while i < n
        invariant
            n == items@.len(),
            iv == item_views(items@),
            i <= n,
            count <= i,
            raw_lines(iv.take(i as int), parent_id@) == (text@, count as nat),
        decreases n - i,
    {
        proof {
            assert(iv.take(i + 1).drop_last() =~= iv.take(i as int));
            assert(iv.take(i + 1).last() == items@[i as int]@);
        }
        if lists_parent(&items[i].parent_folder, parent_id) {
            let line = raw_line_text(&items[i]);
            text.append(line.as_str());
            count = count + 1;
        }
        i = i + 1;
    }
    proof {
        assert(iv.take(n as int) =~= iv);
    }
    if count == 0 {
        let a = concat("Cloud path '", path);
        return concat(a.as_str(), "' is empty (no files found)");
    }
    let a = concat("Cloud path '", path);
    let b = concat(a.as_str(), "' (parent=");
    let c = concat(b.as_str(), parent_id);
    let d = concat(c.as_str(), "): ");
    let digits = u64_text(count);
    let e = concat(d.as_str(), digits.as_str());
    let f = concat(e.as_str(), " files\n");
    concat(f.as_str(), text.as_str())
}

/// The items of a raw listing: a `NetworkError` when the status is not
/// 200, a `JsonError` when the body did not parse.
pub fn raw_listing_items(status: i32, parsed: Result<Vec<CloudItem>, String>) -> (r: VfsResult<Vec<CloudItem>>)
    ensures
        status != 200 ==> (r matches Err(e) && e.code == ErrorCode::NetworkError
            && e.message@ == "Cloud API returned status: "@ + crate::text::signed_decimal(status as int)),
        status == 200 ==> match parsed {
            Ok(items) => (r matches Ok(v) && v@ == items@),
            Err(m) => (r matches Err(e) && e.code == ErrorCode::JsonError
                && e.message@ == "Failed to parse cloud response: "@ + m@),
        },
{
    if status != 200 {
        return Err(crate::cloud::status_error("Cloud API returned status: ", status));
    }
    match parsed {
        Ok(items) => Ok(items),
        Err(m) => Err(crate::cloud::parse_error(ErrorCode::JsonError, "Failed to parse cloud response: ", m.as_str())),
    }
}

/// The text of a raw listing whose walk stopped at folder `part` with `message`.
pub fn raw_folder_failure(part: &str, message: &str) -> (r: String)
    ensures
        r@ == "Folder '"@ + part@ + "' not found: "@ + message@,
{
    let a = concat("Folder '", part);
    let b = concat(a.as_str(), "' not found: ");
    concat(b.as_str(), message)
}

/// The text of a raw listing asked for without an access token.
pub fn raw_listing_without_token() -> (r: String)
    ensures
        r@ == "No access token, please click 'get at' first"@,
{
    "No access token, please click 'get at' first".to_owned()
}

/// The folder a raw listing's walk stopped at, after `searched` searches
/// of the folders `parts`: the last folder searched (empty when none was).
pub fn raw_failed_part(parts: &Vec<String>, searched: usize) -> (r: String)
    ensures
        r@ == if 0 < searched <= parts@.len() {
            parts@[searched - 1]@
        } else {
            Seq::<char>::empty()
        },
{
    if searched > 0 && searched <= parts.len() {
        parts[searched - 1].clone()
    } else {
        String::new()
    }
}

/// A listing entry made from a cloud item carries that item's file name,
/// its edit time in seconds and the cloud as source; it is a directory
/// exactly when the item's MIME type names a folder, and then has size 0,
/// otherwise the size the item reports (0 when unknown).
pub proof fn lemma_cloud_entry_describes_item(it: CloudItemView)
    ensures
        cloud_entry_view(it).name == it.file_name,
        cloud_entry_view(it).modified_time == edited_seconds(it.edited_time),
        cloud_entry_view(it).source == 2,
        cloud_entry_view(it).is_directory == mime_is_folder(it.mime_type, false),
        cloud_entry_view(it).is_directory ==> cloud_entry_view(it).size == 0,
        !cloud_entry_view(it).is_directory ==> cloud_entry_view(it).size == match it.size {
            Some(n) => n,
            None => 0u64,
        },
{
}

/// The names listed for a cloud folder are exactly its items' file names, in order.
pub proof fn lemma_cloud_entries_keep_names(items: Seq<CloudItemView>, i: int)
    requires
        0 <= i < items.len(),
    ensures
        items.map_values(|it: CloudItemView| cloud_entry_view(it))[i].name == items[i].file_name,
        items.map_values(|it: CloudItemView| cloud_entry_view(it)).len() == items.len(),
{
}

/// Entries say where they come from: 1 for the local side, 2 for the cloud.
pub proof fn lemma_sources()
    ensures
        SOURCE_LOCAL == 1,
        SOURCE_CLOUD == 2,
{
}

} // verus!
