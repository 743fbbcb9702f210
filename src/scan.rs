//! One directory's listing: its children with their sizes, largest first,
//! after a row that leads to the parent directory.

use vstd::prelude::*;
use crate::format::{format_size, size_text};
use crate::size::{node_size, size_of, FsNode};

verus! {

broadcast use vstd::seq_lib::group_to_multiset_ensures;

/// One row of a listing.
#[derive(Debug)]
pub struct FileItem {
    pub path: String,
    pub name: String,
    pub size_bytes: u64,
    pub is_dir: bool,
    pub human_readable_size: String,
}

/// A row as plain values.
pub struct FileItemView {
    pub path: Seq<char>,
    pub name: Seq<char>,
    pub size_bytes: u64,
    pub is_dir: bool,
    pub human_readable_size: Seq<char>,
}

impl View for FileItem {
    type V = FileItemView;

    open spec fn view(&self) -> FileItemView {
        FileItemView {
            path: self.path@,
            name: self.name@,
            size_bytes: self.size_bytes,
            is_dir: self.is_dir,
            human_readable_size: self.human_readable_size@,
        }
    }
}

/// A child of the listed directory, as it was read.
pub struct EntryRead {
    /// The child's full path.
    pub path: String,
    /// The last component of that path.
    pub name: String,
    /// Whether the child's own metadata says it is a directory.
    pub is_dir: bool,
    /// The subtree under the child, for its size.
    pub tree: FsNode,
}

/// Why one child of the listing could not be read.
pub enum EntryFailure {
    /// The listing could not produce the entry.
    Entry,
    /// The entry's metadata could not be read.
    Metadata,
}

/// What was read of a directory that was resolved to its canonical form.
pub struct ResolvedDirectory {
    /// The canonical parent directory; `None` at a filesystem root.
    pub parent: Option<String>,
    /// The children in listing order; `None` where the directory could not be opened.
    pub entries: Option<Vec<Result<EntryRead, EntryFailure>>>,
}

/// What was read of the path that was asked for.
pub struct DirectoryRead {
    pub exists: bool,
    /// The canonical directory; `None` where the path could not be resolved.
    pub resolved: Option<ResolvedDirectory>,
}

pub open spec fn not_found_message(path: Seq<char>) -> Seq<char> {
    "Path does not exist: "@ + path
}

pub open spec fn unresolvable_message(path: Seq<char>) -> Seq<char> {
    "Failed to resolve path: "@ + path
}

/// The row that leads to the parent directory.
pub open spec fn parent_row(parent: Seq<char>) -> FileItemView {
    FileItemView {
        path: parent,
        name: ".."@,
        size_bytes: 0,
        is_dir: true,
        human_readable_size: "-"@,
    }
}

/// The size of a subtree as it is reported.
pub open spec fn reported_size(n: FsNode) -> u64 {
    if node_size(n) <= u64::MAX {
        node_size(n) as u64
    } else {
        u64::MAX
    }
}

/// The row of a child that was read.
pub open spec fn entry_row(e: EntryRead) -> FileItemView {
    FileItemView {
        path: e.path@,
        name: e.name@,
        size_bytes: reported_size(e.tree),
        is_dir: e.is_dir,
        human_readable_size: size_text(reported_size(e.tree) as nat),
    }
}

pub open spec fn views(s: Seq<FileItem>) -> Seq<FileItemView> {
    s.map_values(|x: FileItem| x@)
}

/// The rows of children that were all read, in listing order.
pub open spec fn entry_rows(s: Seq<Result<EntryRead, EntryFailure>>) -> Seq<FileItemView> {
    s.map_values(|e: Result<EntryRead, EntryFailure>| entry_row(e->Ok_0))
}

/// The failure of the first child that could not be read, if any.
pub open spec fn first_failure(s: Seq<Result<EntryRead, EntryFailure>>) -> Option<EntryFailure>
    decreases s.len(),
{
    if s.len() == 0 {
        None
    } else {
        match s[0] {
            Err(f) => Some(f),
            Ok(_) => first_failure(s.drop_first()),
        }
    }
}

/// Whether the rows are ordered by size, largest first.
pub open spec fn by_size_descending(s: Seq<FileItemView>) -> bool {
    forall|i: int, j: int| 0 <= i < j < s.len() ==> s[i].size_bytes >= s[j].size_bytes
}

/// What a listing whose reads all succeeded consists of: the parent row where
/// there is a parent, then every child's row once, largest first.
pub open spec fn is_listing(
    r: Seq<FileItemView>,
    parent: Option<Seq<char>>,
    rows: Seq<FileItemView>,
) -> bool {
    let k: int = if parent is Some { 1 } else { 0 };
    &&& r.len() == k + rows.len()
    &&& parent is Some ==> r[0] == parent_row(parent->Some_0)
    &&& r.subrange(k, r.len() as int).to_multiset() == rows.to_multiset()
    &&& by_size_descending(r.subrange(k, r.len() as int))
}

fn row_of(e: &EntryRead) -> (r: FileItem)
    ensures
        r@ == entry_row(*e),
{
    let size = size_of(&e.tree);
    FileItem {
        path: e.path.clone(),
        name: e.name.clone(),
        size_bytes: size,
        is_dir: e.is_dir,
        human_readable_size: format_size(size),
    }
}

/// The rows of the children in listing order, or the error of the first child
/// that could not be read.
fn collect_rows(entries: &Vec<Result<EntryRead, EntryFailure>>) -> (r: Result<
    Vec<FileItem>,
    String,
>)
    ensures
        match first_failure(entries@) {
            None => r is Ok && views(r->Ok_0@) == entry_rows(entries@),
            Some(EntryFailure::Entry) => r is Err && r->Err_0@ == "Failed to read entry"@,
            Some(EntryFailure::Metadata) => r is Err && r->Err_0@ == "Failed to get metadata"@,
        },
{
    let mut rows: Vec<FileItem> = Vec::new();
    let mut i: usize = 0;
    assert(entries@.subrange(0, entries@.len() as int) =~= entries@);
    while i < entries.len()
        invariant
            i <= entries@.len(),
            first_failure(entries@) == first_failure(entries@.subrange(i as int, entries@.len() as int)),
            forall|j: int| 0 <= j < i ==> (#[trigger] entries@[j]) is Ok,
            views(rows@) == entry_rows(entries@.subrange(0, i as int)),
        decreases entries@.len() - i,
    {
        let ghost rest = entries@.subrange(i as int, entries@.len() as int);
        assert(rest[0] == entries@[i as int]);
        match &entries[i] {
            Err(EntryFailure::Entry) => {
                return Err(String::from_str("Failed to read entry"));
            },
            Err(EntryFailure::Metadata) => {
                return Err(String::from_str("Failed to get metadata"));
            },
            Ok(e) => {
                let row = row_of(e);
                let ghost before = rows@;
                rows.push(row);
                proof {
                    assert(entries@.subrange(0, i + 1) =~= entries@.subrange(0, i as int).push(entries@[i as int]));
                    assert(rows@ =~= before.push(row));
                    assert(views(rows@) =~= views(before).push(row@));
                    assert(rest.drop_first() =~= entries@.subrange(i + 1, entries@.len() as int));
                    assert(views(rows@) =~= entry_rows(entries@.subrange(0, i + 1)));
                }
            },
        }
        i = i + 1;
    }
    assert(entries@.subrange(0, entries@.len() as int) =~= entries@);
    Ok(rows)
}

/// Appends the rows of `pool` to `items`, largest first.
fn push_largest_first(items: &mut Vec<FileItem>, pool_in: Vec<FileItem>)
    ensures
        final(items)@.len() == old(items)@.len() + pool_in@.len(),
        final(items)@.subrange(0, old(items)@.len() as int) == old(items)@,
        views(final(items)@.subrange(old(items)@.len() as int, final(items)@.len() as int)).to_multiset()
            == views(pool_in@).to_multiset(),
        by_size_descending(
            views(final(items)@.subrange(old(items)@.len() as int, final(items)@.len() as int)),
        ),
{
    let ghost k = items@.len() as int;
    let ghost start = items@;
    let ghost all = views(pool_in@);
    let mut pool = pool_in;
    while pool.len() > 0
        invariant
            0 <= k <= items@.len(),
            k == old(items)@.len(),
            start == old(items)@,
            all == views(pool_in@),
            items@.len() == k + all.len() - pool@.len(),
            items@.subrange(0, k) == start,
            views(items@.subrange(k, items@.len() as int)).to_multiset().add(
                views(pool@).to_multiset(),
            ) == all.to_multiset(),
            by_size_descending(views(items@.subrange(k, items@.len() as int))),
            forall|a: int, b: int|
                k <= a < items@.len() && 0 <= b < pool@.len() ==> (#[trigger] items@[a]).size_bytes
                    >= (#[trigger] pool@[b]).size_bytes,
        decreases pool@.len(),
    {
        let mut best: usize = 0;
        let mut j: usize = 1;
        while j < pool.len()
            invariant
                best < j <= pool@.len(),
                forall|b: int| 0 <= b < j ==> pool@[best as int].size_bytes >= (#[trigger] pool@[b]).size_bytes,
            decreases pool@.len() - j,
        {
            if pool[j].size_bytes > pool[best].size_bytes {
                best = j;
            }
            j = j + 1;
        }
        let ghost before_items = items@;
        let ghost before_pool = pool@;
        let x = pool.remove(best);
        items.push(x);
        proof {
            let done_before = views(before_items.subrange(k, before_items.len() as int));
            let done_after = views(items@.subrange(k, items@.len() as int));
            assert(done_after =~= done_before.push(x@));
            assert(views(pool@) =~= views(before_pool).remove(best as int));
            assert(views(before_pool)[best as int] == x@);
            assert(items@.subrange(0, k) =~= before_items.subrange(0, k));
            assert(done_after.to_multiset().add(views(pool@).to_multiset())
                =~= done_before.to_multiset().add(views(before_pool).to_multiset()));
            assert forall|a: int, b: int| 0 <= a < b < done_after.len() implies
                done_after[a].size_bytes >= done_after[b].size_bytes by {
                if b == done_after.len() - 1 {
                    assert(items@[k + a] == before_items[k + a]);
                    assert(before_pool[best as int] == x);
                }
            }
            assert forall|a: int, b: int|
                k <= a < items@.len() && 0 <= b < pool@.len() implies (#[trigger] items@[a]).size_bytes
                    >= (#[trigger] pool@[b]).size_bytes by {
                let ob = if b < best { b } else { b + 1 };
                assert(pool@[b] == before_pool[ob]);
                if a < items@.len() - 1 {
                    assert(items@[a] == before_items[a]);
                }
            }
        }
    }
    assert(pool@ =~= Seq::<FileItem>::empty());
    assert(views(pool@) =~= Seq::<FileItemView>::empty());
}

pub open spec fn string_views(p: Option<String>) -> Option<Seq<char>> {
    match p {
        Some(s) => Some(s@),
        None => None,
    }
}

/// The message with which a scan of `path` fails, given what was read of it;
/// `None` where every read succeeded.
pub open spec fn scan_error(path: Seq<char>, read: DirectoryRead) -> Option<Seq<char>> {
    if !read.exists {
        Some(not_found_message(path))
    } else {
        match read.resolved {
            None => Some(unresolvable_message(path)),
            Some(dir) => match dir.entries {
                None => Some("Failed to read directory"@),
                Some(entries) => match first_failure(entries@) {
                    Some(EntryFailure::Entry) => Some("Failed to read entry"@),
                    Some(EntryFailure::Metadata) => Some("Failed to get metadata"@),
                    None => None,
                },
            },
        }
    }
}

/// Lists the directory at `path` from what was read of it: fails with the
/// first failed read in the order path, resolution, listing, entries; else
/// gives the parent row (where the directory has a parent) and then one row per
/// child, with its recursive size, largest first.
pub fn scan_directory(path: String, read: DirectoryRead) -> (r: Result<Vec<FileItem>, String>)
    ensures
        match scan_error(path@, read) {
            Some(message) => r is Err && r->Err_0@ == message,
            None => r is Ok && is_listing(
                views(r->Ok_0@),
                string_views(read.resolved->Some_0.parent),
                entry_rows(read.resolved->Some_0.entries->Some_0@),
            ),
        },
{
    if !read.exists {
        return Err(String::from_str("Path does not exist: ").concat(path.as_str()));
    }
    let dir = match read.resolved {
        None => {
            return Err(String::from_str("Failed to resolve path: ").concat(path.as_str()));
        },
        Some(dir) => dir,
    };
    let entries = match dir.entries {
        None => {
            return Err(String::from_str("Failed to read directory"));
        },
        Some(entries) => entries,
    };
    let rows = match collect_rows(&entries) {
        Err(message) => {
            return Err(message);
        },
        Ok(rows) => rows,
    };
    let mut items: Vec<FileItem> = Vec::new();
    match dir.parent {
        Some(parent) => {
            items.push(
                FileItem {
                    path: parent,
                    name: String::from_str(".."),
                    size_bytes: 0,
                    is_dir: true,
                    human_readable_size: String::from_str("-"),
                },
            );
        },
        None => {},
    }
    let ghost k = items@.len() as int;
    push_largest_first(&mut items, rows);
    proof {
        assert(views(items@).subrange(k, items@.len() as int) =~= views(
            items@.subrange(k, items@.len() as int),
        ));
        if k == 1 {
            assert(items@[0] == items@.subrange(0, 1)[0]);
        }
    }
    Ok(items)
}

} // verus!
