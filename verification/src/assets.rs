//! Resolution of the directory holding the static web assets.
//!
//! The launcher looks for a directory containing the marker file
//! `index.html`: first among a fixed ordered list of direct candidates, then
//! by a depth-bounded search below the packaged-resource root, and finally
//! falls back to a conventional build-output path even when that path holds
//! no marker — the launch never fails over missing assets, callers must
//! tolerate a path without them.
//!
//! The filesystem itself cannot be reasoned about, so the surrounding binary
//! snapshots the relevant part of it into plain values: each candidate or
//! directory carries its path and whether it holds the marker, and the
//! directory tree below the resource root is given as nodes with child
//! indices.  The selection logic over that snapshot is verified here.

use vstd::prelude::*;

verus! {

/// How deep below the resource root the marker search descends.
pub const MAX_SEARCH_DEPTH: usize = 5;

/// Relies on std::path::Path::is_file: whether `path` names an existing
/// regular file.  The result depends on the state of the disk, so nothing
/// can be stated of it.
#[verifier::external_body]
fn path_is_file(path: &str) -> bool {
    std::path::Path::new(path).is_file()
}

/// Probes whether `directory` holds the marker file `index.html`.  The
/// answer comes from the filesystem and can change between calls, so the
/// selection logic never calls this itself: it takes the probed answers as
/// input, in `AssetCandidate` and `AssetDir` values built by the caller.
pub fn has_index_html(directory: &str) -> bool {
    let mut path = String::from_str(directory);
    path.append("/index.html");
    path_is_file(path.as_str())
}

/// One directly probed candidate directory.
pub struct AssetCandidate {
    /// The directory's path.
    pub path: String,
    /// Whether the directory holds the marker file.
    pub has_marker: bool,
}

/// One directory in the snapshot of the tree below the resource root.
pub struct AssetDir {
    /// The directory's path.
    pub path: String,
    /// Whether the directory holds the marker file.
    pub has_marker: bool,
    /// Indices of the directory's subdirectories within the snapshot.
    pub subdirs: Vec<usize>,
}

/// Every child index points into the snapshot.
pub open spec fn wf_tree(nodes: Seq<AssetDir>) -> bool {
    forall|i: int, k: int|
        0 <= i < nodes.len() && 0 <= k < nodes[i].subdirs@.len() ==> (nodes[i].subdirs@[k] as int)
            < nodes.len()
}

/// Whether `target` can be reached from `root` by descending at most
/// `depth` levels.
pub open spec fn reachable_within(nodes: Seq<AssetDir>, root: int, target: int, depth: nat) -> bool
    decreases depth,
{
    root == target || (depth > 0 && exists|k: int|
        0 <= k < nodes[root].subdirs@.len() && reachable_within(
            nodes,
            nodes[root].subdirs@[k] as int,
            target,
            (depth - 1) as nat,
        ))
}

/// Whether a directory holding the marker can be reached from `root` by
/// descending at most `depth` levels.
pub open spec fn marker_within(nodes: Seq<AssetDir>, root: int, depth: nat) -> bool
    decreases depth,
{
    nodes[root].has_marker || (depth > 0 && exists|k: int|
        0 <= k < nodes[root].subdirs@.len() && marker_within(
            nodes,
            nodes[root].subdirs@[k] as int,
            (depth - 1) as nat,
        ))
}

/// Searches the snapshot below `root`, descending at most `depth` levels,
/// for a directory holding the marker.  Finds one exactly when one is
/// reachable.
pub fn search_marker(nodes: &Vec<AssetDir>, root: usize, depth: usize) -> (r: Option<usize>)
    requires
        wf_tree(nodes@),
        root < nodes@.len(),
    ensures
        (r is Some) == marker_within(nodes@, root as int, depth as nat),
        (match r {
            Some(i) => i < nodes@.len() && nodes@[i as int].has_marker && reachable_within(
                nodes@,
                root as int,
                i as int,
                depth as nat,
            ),
            None => true,
        }),
    decreases depth,
{
    if nodes[root].has_marker {
        return Some(root);
    }
    if depth == 0 {
        return None;
    }
    let n_subs = nodes[root].subdirs.len();
    let mut k: usize = 0;
    while k < n_subs
        invariant
            wf_tree(nodes@),
            root < nodes@.len(),
            depth >= 1,
            !nodes@[root as int].has_marker,
            n_subs == nodes@[root as int].subdirs@.len(),
            forall|j: int|
                0 <= j < k ==> !marker_within(
                    nodes@,
                    nodes@[root as int].subdirs@[j] as int,
                    (depth - 1) as nat,
                ),
        decreases n_subs - k,
    {
        let child = nodes[root].subdirs[k];
        let found = search_marker(nodes, child, depth - 1);
        if let Some(i) = found {
            proof {
                assert(reachable_within(nodes@, root as int, i as int, depth as nat)) by {
                    assert(reachable_within(
                        nodes@,
                        nodes@[root as int].subdirs@[k as int] as int,
                        i as int,
                        (depth - 1) as nat,
                    ));
                }
                assert(marker_within(nodes@, root as int, depth as nat)) by {
                    assert(marker_within(
                        nodes@,
                        nodes@[root as int].subdirs@[k as int] as int,
                        (depth - 1) as nat,
                    ));
                }
            }
            return Some(i);
        }
        k = k + 1;
    }
    proof {
        assert(!marker_within(nodes@, root as int, depth as nat));
    }
    None
}

/// The first candidate holding the marker, if any: candidates without the
/// marker ahead of it are passed over.
pub open spec fn first_marked(candidates: Seq<AssetCandidate>) -> Option<int>
    decreases candidates.len(),
{
    if candidates.len() == 0 {
        None
    } else if candidates[0].has_marker {
        Some(0)
    } else {
        match first_marked(candidates.drop_first()) {
            Some(i) => Some(i + 1),
            None => None,
        }
    }
}

proof fn lemma_first_marked_props(candidates: Seq<AssetCandidate>)
    ensures
        (match first_marked(candidates) {
            Some(i) => 0 <= i < candidates.len() && candidates[i].has_marker && forall|j: int|
                0 <= j < i ==> !candidates[j].has_marker,
            None => forall|j: int| 0 <= j < candidates.len() ==> !candidates[j].has_marker,
        }),
    decreases candidates.len(),
{
    if candidates.len() > 0 && !candidates[0].has_marker {
        let t = candidates.drop_first();
        lemma_first_marked_props(t);
        assert(forall|j: int| 1 <= j < candidates.len() ==> candidates[j] == t[j - 1]);
        match first_marked(t) {
            Some(i) => {
                assert(candidates[i + 1] == t[i]);
                assert forall|j: int| 0 <= j < i + 1 implies !candidates[j].has_marker by {
                    if j >= 1 {
                        assert(candidates[j] == t[j - 1]);
                    }
                }
            },
            None => {
                assert forall|j: int|
                    0 <= j < candidates.len() implies !candidates[j].has_marker by {
                    if j >= 1 {
                        assert(candidates[j] == t[j - 1]);
                    }
                }
            },
        }
    }
}

proof fn lemma_first_marked_at(candidates: Seq<AssetCandidate>, i: int)
    requires
        0 <= i < candidates.len(),
        candidates[i].has_marker,
        forall|j: int| 0 <= j < i ==> !candidates[j].has_marker,
    ensures
        first_marked(candidates) == Some(i),
    decreases i,
{
    if i > 0 {
        lemma_first_marked_at(candidates.drop_first(), i - 1);
    }
}

/// What `resolve_web_assets` returns, by cases: the first direct candidate
/// with the marker; failing that, some marked directory reachable within
/// `MAX_SEARCH_DEPTH` of the resource root; failing that, the last-resort
/// path, whether or not it holds the marker.
pub open spec fn resolution_ok(
    candidates: Seq<AssetCandidate>,
    tree: Seq<AssetDir>,
    tree_root: Option<usize>,
    last_resort: Seq<char>,
    r: Seq<char>,
) -> bool {
    match first_marked(candidates) {
        Some(i) => r == candidates[i].path@,
        None => {
            let searched = tree_root is Some && marker_within(
                tree,
                tree_root->0 as int,
                MAX_SEARCH_DEPTH as nat,
            );
            if searched {
                exists|i: int|
                    0 <= i < tree.len() && tree[i].has_marker && reachable_within(
                        tree,
                        tree_root->0 as int,
                        i,
                        MAX_SEARCH_DEPTH as nat,
                    ) && r == tree[i].path@
            } else {
                r == last_resort
            }
        },
    }
}

/// Picks the web-asset directory from the snapshot: the first direct
/// candidate with the marker, else a marked directory found below the
/// resource root, else the last-resort path unconditionally.
pub fn resolve_web_assets(
    candidates: &Vec<AssetCandidate>,
    tree: &Vec<AssetDir>,
    tree_root: Option<usize>,
    last_resort: String,
) -> (r: String)
    requires
        wf_tree(tree@),
        tree_root is Some ==> tree_root->0 < tree@.len(),
    ensures
        resolution_ok(candidates@, tree@, tree_root, last_resort@, r@),
{
    let n = candidates.len();
    let mut idx: usize = 0;
    while idx < n
        invariant
            n == candidates@.len(),
            forall|j: int| 0 <= j < idx ==> !candidates@[j].has_marker,
        decreases n - idx,
    {
        if candidates[idx].has_marker {
            proof {
                lemma_first_marked_at(candidates@, idx as int);
            }
            return candidates[idx].path.clone();
        }
        idx = idx + 1;
    }
    proof {
        lemma_first_marked_props(candidates@);
        assert(first_marked(candidates@) is None);
    }
    if let Some(root) = tree_root {
        let found = search_marker(tree, root, MAX_SEARCH_DEPTH);
        if let Some(i) = found {
            let dir = &tree[i];
            let r = dir.path.clone();
            return r;
        }
    }
    last_resort
}

} // verus!
