//! A ghost model of the filesystem effects this library's protocol
//! relies on.
//!
//! A snapshot maps each absolute path (a sequence of characters) to the
//! kind of entry standing there. The spec functions below say what each
//! filesystem action the surrounding program performs does to a
//! snapshot; the proof functions state the guarantees of the protocol
//! over that model.

use vstd::prelude::*;

verus! {

broadcast use vstd::map::group_map_axioms;

/// The kind of entry a path denotes.
#[derive(PartialEq, Eq, Structural)]
pub enum EntryKind {
    Directory,
    RegularFile,
}

/// One snapshot of the filesystem namespace: each existing path, with
/// the kind of the entry standing at it.
pub type FsSnapshot = Map<Seq<char>, EntryKind>;

/// Whether any entry stands at `p`.
pub open spec fn entry_exists(fs: FsSnapshot, p: Seq<char>) -> bool {
    fs.dom().contains(p)
}

/// Whether a directory stands at `p`.
pub open spec fn is_directory(fs: FsSnapshot, p: Seq<char>) -> bool {
    fs.dom().contains(p) && fs[p] == EntryKind::Directory
}

/// Whether a regular file stands at `p`.
pub open spec fn is_regular_file(fs: FsSnapshot, p: Seq<char>) -> bool {
    fs.dom().contains(p) && fs[p] == EntryKind::RegularFile
}

/// The snapshot after a directory is created at `p`.
pub open spec fn create_directory(fs: FsSnapshot, p: Seq<char>) -> FsSnapshot {
    fs.insert(p, EntryKind::Directory)
}

/// The snapshot after an empty regular file is created at `p`.
pub open spec fn create_regular_file(fs: FsSnapshot, p: Seq<char>) -> FsSnapshot {
    fs.insert(p, EntryKind::RegularFile)
}

/// The snapshot after "ensure a directory exists at `p`": creation only
/// happens when nothing stands there yet.
pub open spec fn ensure_directory(fs: FsSnapshot, p: Seq<char>) -> FsSnapshot {
    if entry_exists(fs, p) {
        fs
    } else {
        create_directory(fs, p)
    }
}

/// Whether "ensure a directory exists at `p`" reports that it created
/// the directory (rather than finding it already present).
pub open spec fn ensure_creates(fs: FsSnapshot, p: Seq<char>) -> bool {
    !entry_exists(fs, p)
}

/// Whether `p` lies strictly beneath the directory `dir`.
pub open spec fn beneath(dir: Seq<char>, p: Seq<char>) -> bool {
    p.len() > dir.len() && p.subrange(0, dir.len() as int) == dir && p[dir.len() as int] == '/'
}

/// The snapshot after the tree rooted at `dir` is removed: `dir` itself
/// and everything beneath it are gone, all else is untouched.
pub open spec fn remove_tree(fs: FsSnapshot, dir: Seq<char>) -> FsSnapshot {
    Map::new(|p: Seq<char>| fs.dom().contains(p) && p != dir && !beneath(dir, p), |p: Seq<char>| fs[p])
}

/// The snapshot after the regular file at `p` is removed.
pub open spec fn remove_regular_file(fs: FsSnapshot, p: Seq<char>) -> FsSnapshot {
    fs.remove(p)
}

/// A successful creation leaves an entry of the matching kind at the
/// returned handle's path, and touches no other path.
pub proof fn lemma_created_entry_exists(fs: FsSnapshot, p: Seq<char>)
    ensures
        is_directory(create_directory(fs, p), p),
        is_regular_file(create_regular_file(fs, p), p),
        forall|q: Seq<char>| q != p ==> entry_exists(create_directory(fs, p), q) == entry_exists(
            fs,
            q,
        ),
        forall|q: Seq<char>| q != p ==> entry_exists(create_regular_file(fs, p), q)
            == entry_exists(fs, q),
{
}

/// No two simultaneously-live handles share a path: every live handle's
/// entry exists, and a factory call only creates at a path that was
/// found absent, so the fresh path differs from every live one.
pub proof fn lemma_live_paths_distinct(fs: FsSnapshot, live: Set<Seq<char>>, fresh: Seq<char>)
    requires
        forall|q: Seq<char>| live.contains(q) ==> entry_exists(fs, q),
        !entry_exists(fs, fresh),
    ensures
        forall|q: Seq<char>| live.contains(q) ==> q != fresh,
{
}

/// Removing a tree removes its root and everything beneath it, and
/// leaves every other entry exactly as it was.
pub proof fn lemma_remove_tree(fs: FsSnapshot, dir: Seq<char>)
    ensures
        !entry_exists(remove_tree(fs, dir), dir),
        forall|p: Seq<char>| beneath(dir, p) ==> !entry_exists(remove_tree(fs, dir), p),
        forall|p: Seq<char>|
            p != dir && !beneath(dir, p) ==> entry_exists(remove_tree(fs, dir), p) == entry_exists(
                fs,
                p,
            ),
        forall|p: Seq<char>|
            p != dir && !beneath(dir, p) && entry_exists(fs, p) ==> remove_tree(fs, dir)[p]
                == fs[p],
{
}

/// Removing a regular file removes exactly that path and nothing else.
pub proof fn lemma_remove_regular_file(fs: FsSnapshot, p: Seq<char>)
    ensures
        !entry_exists(remove_regular_file(fs, p), p),
        forall|q: Seq<char>| q != p ==> entry_exists(remove_regular_file(fs, p), q)
            == entry_exists(fs, q),
        forall|q: Seq<char>| q != p && entry_exists(fs, q) ==> remove_regular_file(fs, p)[q]
            == fs[q],
{
}

/// Ensuring the root is idempotent: after one ensure the root exists, a
/// second ensure changes nothing and reports no creation.
pub proof fn lemma_ensure_directory_idempotent(fs: FsSnapshot, p: Seq<char>)
    ensures
        entry_exists(ensure_directory(fs, p), p),
        ensure_directory(ensure_directory(fs, p), p) == ensure_directory(fs, p),
        !ensure_creates(ensure_directory(fs, p), p),
{
}

/// Removing a tree that lies beneath the staging root leaves the root
/// itself standing.
pub proof fn lemma_remove_tree_keeps_root(fs: FsSnapshot, root: Seq<char>, dir: Seq<char>)
    requires
        is_directory(fs, root),
        beneath(root, dir),
    ensures
        is_directory(remove_tree(fs, dir), root),
{
    assert(root != dir);
    assert(!beneath(dir, root));
}

} // verus!
