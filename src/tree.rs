//! The document tree: which walk entries are documents, and which document
//! an identifier names.
use vstd::prelude::*;
use crate::digest::{id_of, location_id};

verus! {

/// One entry met while walking the tree below the root.
pub enum WalkItem {
    /// The walk could not read this entry (permission, broken link); it is skipped.
    Failed,
    /// A readable entry at `path`; `is_file` holds of regular files only.
    Entry { path: String, is_file: bool },
}

/// The locations of the regular files among the walk entries, in walk order.
pub open spec fn files_of(entries: Seq<WalkItem>) -> Seq<Seq<char>>
    decreases entries.len(),
{
    if entries.len() == 0 {
        Seq::empty()
    } else {
        let rest = files_of(entries.drop_last());
        match entries.last() {
            WalkItem::Entry { path, is_file } => if is_file {
                rest.push(path@)
            } else {
                rest
            },
            WalkItem::Failed => rest,
        }
    }
}

/// Whether entry `i` of the walk is a regular file at `loc`.
pub open spec fn is_file_at(entries: Seq<WalkItem>, i: int, loc: Seq<char>) -> bool {
    match entries[i] {
        WalkItem::Entry { path, is_file } => is_file && path@ == loc,
        WalkItem::Failed => false,
    }
}

/// The path of entry `i`, where it has one.
pub open spec fn path_at(entries: Seq<WalkItem>, i: int) -> Option<Seq<char>> {
    match entries[i] {
        WalkItem::Entry { path, .. } => Some(path@),
        WalkItem::Failed => None,
    }
}

/// The text view of each location.
pub open spec fn views(v: Seq<String>) -> Seq<Seq<char>> {
    v.map_values(|s: String| s@)
}

/// Keeps the regular files among the walk entries, skipping directories,
/// other kinds of entry and entries the walk failed on.
pub fn collect_files(entries: &Vec<WalkItem>) -> (r: Vec<String>)
    ensures
        views(r@) == files_of(entries@),
{
    let mut r: Vec<String> = Vec::new();
    let mut i: usize = 0;
    while i < entries.len()
        invariant
            i <= entries@.len(),
            views(r@) == files_of(entries@.subrange(0, i as int)),
        decreases entries@.len() - i,
    {
        proof {
            let p = entries@.subrange(0, i as int + 1);
            assert(p.drop_last() =~= entries@.subrange(0, i as int));
        }
        match &entries[i] {
            WalkItem::Entry { path, is_file } => {
                if *is_file {
                    let ghost before = r@;
                    r.push(path.clone());
                    assert(views(r@) =~= views(before).push(path@));
                }
            },
            WalkItem::Failed => {},
        }
        i = i + 1;
    }
    assert(entries@.subrange(0, entries@.len() as int) =~= entries@);
    r
}

/// The walk yields exactly the regular files it met, and, where the walk
/// names no path twice, no location twice.
pub proof fn lemma_files_complete(entries: Seq<WalkItem>)
    ensures
        forall|loc: Seq<char>|
            files_of(entries).contains(loc) <==> exists|i: int|
                0 <= i < entries.len() && #[trigger] is_file_at(entries, i, loc),
        (forall|i: int, j: int|
            0 <= i < j < entries.len() && path_at(entries, i) is Some ==> #[trigger] path_at(
                entries,
                i,
            ) != #[trigger] path_at(entries, j)) ==> files_of(entries).no_duplicates(),
    decreases entries.len(),
{
    if entries.len() > 0 {
        let init = entries.drop_last();
        let n = entries.len() - 1;
        lemma_files_complete(init);
        assert forall|loc: Seq<char>|
            files_of(entries).contains(loc) <==> exists|i: int|
                0 <= i < entries.len() && #[trigger] is_file_at(entries, i, loc) by {
            assert forall|i: int| 0 <= i < n implies is_file_at(entries, i, loc) == is_file_at(
                init,
                i,
                loc,
            ) by {
                assert(entries[i] == init[i]);
            }
            let fi = files_of(init);
            let fe = files_of(entries);
            if fi.contains(loc) {
                let i = choose|i: int| 0 <= i < init.len() && #[trigger] is_file_at(init, i, loc);
                assert(is_file_at(entries, i, loc));
            }
            if exists|i: int| 0 <= i < entries.len() && #[trigger] is_file_at(entries, i, loc) {
                let i = choose|i: int| 0 <= i < entries.len() && #[trigger] is_file_at(entries, i, loc);
                if i < n {
                    assert(is_file_at(init, i, loc));
                    let k = choose|k: int| 0 <= k < fi.len() && fi[k] == loc;
                    assert(fe[k] == loc);
                } else {
                    assert(fe[fi.len() as int] == loc);
                }
                assert(fe.contains(loc));
            }
            if fe.contains(loc) {
                let k = choose|k: int| 0 <= k < fe.len() && fe[k] == loc;
                if k < fi.len() {
                    assert(fi[k] == loc);
                    assert(fi.contains(loc));
                } else {
                    assert(is_file_at(entries, n, loc));
                }
            }
        }
        if forall|i: int, j: int|
            0 <= i < j < entries.len() && path_at(entries, i) is Some ==> #[trigger] path_at(
                entries,
                i,
            ) != #[trigger] path_at(entries, j) {
            assert forall|i: int, j: int|
                0 <= i < j < init.len() && path_at(init, i) is Some implies #[trigger] path_at(
                init,
                i,
            ) != #[trigger] path_at(init, j) by {
                assert(path_at(init, i) == path_at(entries, i));
                assert(path_at(init, j) == path_at(entries, j));
            }
            match entries.last() {
                WalkItem::Entry { path, is_file } => if is_file {
                    if files_of(init).contains(path@) {
                        let i = choose|i: int| 0 <= i < init.len() && #[trigger] is_file_at(init, i, path@);
                        assert(path_at(entries, i) == path_at(entries, n));
                    }
                },
                WalkItem::Failed => {},
            }
        }
    }
}

/// What resolving `id` against the locations `locs` may give: the first
/// location whose identifier is `id`, or nothing where none has it.
pub open spec fn resolves_to(locs: Seq<Seq<char>>, id: Seq<char>, r: Option<Seq<char>>) -> bool {
    match r {
        None => forall|i: int| 0 <= i < locs.len() ==> id_of(#[trigger] locs[i]) != id,
        Some(l) => exists|i: int|
            0 <= i < locs.len() && #[trigger] locs[i] == l && id_of(l) == id && forall|j: int|
                0 <= j < i ==> id_of(#[trigger] locs[j]) != id,
    }
}

/// The index of the first of `ids` equal to `id`, or `None` where none is.
pub fn find_id(ids: &Vec<String>, id: &str) -> (r: Option<usize>)
    ensures
        match r {
            None => forall|i: int| 0 <= i < ids@.len() ==> (#[trigger] ids@[i])@ != id@,
            Some(k) => k < ids@.len() && ids@[k as int]@ == id@ && forall|j: int|
                0 <= j < k ==> (#[trigger] ids@[j])@ != id@,
        },
{
    let wanted = id.to_owned();
    let mut i: usize = 0;
    while i < ids.len()
        invariant
            i <= ids@.len(),
            wanted@ == id@,
            forall|j: int| 0 <= j < i ==> (#[trigger] ids@[j])@ != id@,
        decreases ids@.len() - i,
    {
        if ids[i] == wanted {
            return Some(i);
        }
        i = i + 1;
    }
    None
}

/// Finds the document named by `id` among `locations`, digesting each
/// location afresh.
pub fn resolve(locations: &Vec<String>, id: &str) -> (r: Option<String>)
    ensures
        resolves_to(views(locations@), id@, match r {
            Some(s) => Some(s@),
            None => None,
        }),
{
    let mut ids: Vec<String> = Vec::new();
    let mut i: usize = 0;
    while i < locations.len()
        invariant
            i <= locations@.len(),
            ids@.len() == i,
            forall|j: int| 0 <= j < i ==> (#[trigger] ids@[j])@ == id_of(locations@[j]@),
        decreases locations@.len() - i,
    {
        ids.push(location_id(locations[i].as_str()));
        i = i + 1;
    }
    let locs = Ghost(views(locations@));
    match find_id(&ids, id) {
        Some(k) => {
            assert(locs@[k as int] == locations@[k as int]@);
            assert forall|j: int| 0 <= j < k implies id_of(#[trigger] locs@[j]) != id@ by {
                assert(ids@[j]@ != id@);
            }
            Some(locations[k].clone())
        },
        None => {
            assert forall|i: int| 0 <= i < locs@.len() implies id_of(#[trigger] locs@[i]) != id@ by {
                assert(ids@[i]@ != id@);
            }
            None
        },
    }
}

/// Resolving the identifier of a listed document gives that document back,
/// unless an earlier location has the same identifier (a digest collision).
pub proof fn lemma_resolve_round_trip(locs: Seq<Seq<char>>, i: int, r: Option<Seq<char>>)
    requires
        0 <= i < locs.len(),
        forall|j: int| 0 <= j < i ==> id_of(#[trigger] locs[j]) != id_of(locs[i]),
        resolves_to(locs, id_of(locs[i]), r),
    ensures
        r == Some(locs[i]),
{
    match r {
        None => {
            assert(id_of(locs[i]) != id_of(locs[i]));
        },
        Some(l) => {
            let k = choose|k: int|
                0 <= k < locs.len() && #[trigger] locs[k] == l && id_of(l) == id_of(locs[i])
                    && forall|j: int| 0 <= j < k ==> id_of(#[trigger] locs[j]) != id_of(locs[i]);
            if k < i {
                assert(id_of(locs[k]) != id_of(locs[i]));
            } else if k > i {
                assert(id_of(locs[i]) != id_of(locs[i]));
            }
        },
    }
}

/// Resolving an identifier that no location has finds nothing.
pub proof fn lemma_resolve_miss(locs: Seq<Seq<char>>, id: Seq<char>, r: Option<Seq<char>>)
    requires
        forall|i: int| 0 <= i < locs.len() ==> id_of(#[trigger] locs[i]) != id,
        resolves_to(locs, id, r),
    ensures
        r is None,
{
    if let Some(l) = r {
        let k = choose|k: int|
            0 <= k < locs.len() && #[trigger] locs[k] == l && id_of(l) == id && forall|j: int|
                0 <= j < k ==> id_of(#[trigger] locs[j]) != id;
        assert(id_of(locs[k]) != id);
    }
}

} // verus!
