//! The directory mirror compressor, over an explicit model of a directory
//! tree: a sequence of entries, each a relative path with its kind. A
//! mirror keeps the structure - every directory, including empty ones,
//! and every file path - and replaces each regular file's contents with
//! its compressed stream. Non-regular, non-directory entries fail the
//! whole pass rather than being silently dropped.

use vstd::prelude::*;

verus! {

use crate::codec::{compress_file_contents, unxz_of, xz_of};

/// The kind of one filesystem entry, with a regular file's full contents.
pub enum EntryKind {
    Directory,
    File { contents: Vec<u8> },
    /// A symbolic link, device, or other non-regular, non-directory entry.
    Unsupported,
}

/// One entry of a directory tree, at its path relative to the tree's root.
pub struct TreeEntry {
    pub path: String,
    pub kind: EntryKind,
}

/// Failure of one mirroring pass: a non-regular, non-directory entry
/// stood in the source tree.
#[derive(Debug)]
pub enum MirrorError {
    UnsupportedEntryKind { path: String },
}

/// The entry can be mirrored at all.
pub open spec fn entry_supported(e: TreeEntry) -> bool {
    !(e.kind is Unsupported)
}

/// `dst` mirrors `src`: same relative path, a directory kept as a
/// directory, a file's contents replaced by their compressed stream,
/// which decompresses back to the original bytes exactly.
pub open spec fn mirrors_entry(src: TreeEntry, dst: TreeEntry) -> bool {
    &&& dst.path@ == src.path@
    &&& match src.kind {
        EntryKind::Directory => dst.kind is Directory,
        EntryKind::File { contents } => dst.kind matches EntryKind::File { contents: c }
            && c@ == xz_of(contents@) && unxz_of(c@) == contents@,
        EntryKind::Unsupported => false,
    }
}

/// Every entry of `dst` mirrors the entry of `src` at the same index.
pub open spec fn mirrors(src: Seq<TreeEntry>, dst: Seq<TreeEntry>) -> bool {
    &&& dst.len() == src.len()
    &&& forall|i: int| 0 <= i < src.len() ==> mirrors_entry(src[i], #[trigger] dst[i])
}

/// Mirrors a single entry: a directory is kept, a regular file's contents
/// are compressed, anything else is refused. Succeeds on exactly the
/// supported entries.
pub fn mirror_entry(src: &TreeEntry) -> (r: Result<TreeEntry, MirrorError>)
    ensures
        r is Ok <==> entry_supported(*src),
        r matches Ok(dst) ==> mirrors_entry(*src, dst),
        r matches Err(MirrorError::UnsupportedEntryKind { path }) ==> path@ == src.path@
            && !entry_supported(*src),
{
    match &src.kind {
        EntryKind::Directory => Ok(
            TreeEntry { path: src.path.clone(), kind: EntryKind::Directory },
        ),
        EntryKind::File { contents } => {
            let compressed = compress_file_contents(contents);
            Ok(TreeEntry { path: src.path.clone(), kind: EntryKind::File { contents: compressed } })
        },
        EntryKind::Unsupported => Err(
            MirrorError::UnsupportedEntryKind { path: src.path.clone() },
        ),
    }
}

/// Produces the compressed mirror of a whole source tree, entry by entry
/// in input order. It succeeds on exactly the trees whose entries are all
/// directories or regular files, and then the result mirrors the source;
/// otherwise it fails on an unsupported entry and no partial mirror is
/// handed out.
pub fn mirror_tree(src: &Vec<TreeEntry>) -> (r: Result<Vec<TreeEntry>, MirrorError>)
    ensures
        r is Ok <==> (forall|i: int|
            0 <= i < src@.len() ==> entry_supported(#[trigger] src@[i])),
        r matches Ok(dst) ==> mirrors(src@, dst@),
        r matches Err(MirrorError::UnsupportedEntryKind { path }) ==> exists|i: int|
            0 <= i < src@.len() && !entry_supported(#[trigger] src@[i])
                && path@ == src@[i].path@,
{
    let n = src.len();
    let mut dst: Vec<TreeEntry> = Vec::new();
    let mut k: usize = 0;
    while k < n
        invariant
            n == src@.len(),
            k <= n,
            dst@.len() == k,
            forall|i: int| 0 <= i < k ==> mirrors_entry(src@[i], #[trigger] dst@[i]),
            forall|i: int| 0 <= i < k ==> entry_supported(#[trigger] src@[i]),
        decreases n - k,
    {
        match mirror_entry(&src[k]) {
            Ok(e) => {
                dst.push(e);
            },
            Err(e) => {
                return Err(e);
            },
        }
        k = k + 1;
    }
    Ok(dst)
}

/// Law: mirroring is structure-preserving and lossless. Under any mirror
/// of a source tree, the entry at each index keeps its relative path, a
/// source directory stands as a directory, and a source file's stored
/// bytes decompress to the source file's bytes exactly.
pub proof fn lemma_mirror_round_trip(src: Seq<TreeEntry>, dst: Seq<TreeEntry>, i: int)
    requires
        mirrors(src, dst),
        0 <= i < src.len(),
    ensures
        dst.len() == src.len(),
        dst[i].path@ == src[i].path@,
        src[i].kind is Directory ==> dst[i].kind is Directory,
        src[i].kind matches EntryKind::File { contents } ==> dst[i].kind matches EntryKind::File {
            contents: c,
        } && unxz_of(c@) == contents@,
{
    assert(mirrors_entry(src[i], dst[i]));
}

/// Law: two mirroring passes over one source do not interfere. Any two
/// mirrors of the same source tree agree entry for entry - same path,
/// same kind, byte-identical compressed contents - and each one's files
/// decompress to the shared source's bytes.
pub proof fn lemma_mirrors_independent(
    src: Seq<TreeEntry>,
    m1: Seq<TreeEntry>,
    m2: Seq<TreeEntry>,
    i: int,
)
    requires
        mirrors(src, m1),
        mirrors(src, m2),
        0 <= i < src.len(),
    ensures
        m1.len() == m2.len(),
        m1[i].path@ == m2[i].path@,
        m1[i].kind is Directory <==> m2[i].kind is Directory,
        src[i].kind matches EntryKind::File { contents } ==> m1[i].kind matches EntryKind::File {
            contents: c1,
        } && m2[i].kind matches EntryKind::File { contents: c2 } && c1@ == c2@ && unxz_of(c1@)
            == contents@ && unxz_of(c2@) == contents@,
{
    assert(mirrors_entry(src[i], m1[i]));
    assert(mirrors_entry(src[i], m2[i]));
}

} // verus!
