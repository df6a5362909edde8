//! The shared fetch primitive: which refspecs one fetch requests, and what
//! a fetch does to a local object store.

use vstd::prelude::*;
use vstd::string::StringExecFns;
use crate::database::{has_commit, BranchEntry, ObjectStore, RevEntry, TagEntry};
use crate::error::clone_string;
use crate::revision::GitRevision;

verus! {

/// The refspec mirroring all remote branches, used when populating a
/// database or repairing a checkout.
pub fn heads_refspec() -> (r: &'static str)
    ensures
        r@ == "refs/heads/*:refs/heads/*"@,
{
    "refs/heads/*:refs/heads/*"
}

/// The refspec always additionally fetched, so tags stay available for
/// reference resolution whatever the caller nominally asked for.
pub fn tags_refspec() -> (r: &'static str)
    ensures
        r@ == "refs/tags/*:refs/tags/*"@,
{
    "refs/tags/*:refs/tags/*"
}

/// The refspecs one fetch requests in a single network round trip: the
/// fixed tag refspec plus the caller-supplied one.
pub fn fetch_refspecs(refspec: &str) -> (r: Vec<String>)
    ensures
        r@.len() == 2,
        r@[0]@ == "refs/tags/*:refs/tags/*"@,
        r@[1]@ == refspec@,
{
    let mut out: Vec<String> = Vec::new();
    out.push(String::from_str(tags_refspec()));
    out.push(String::from_str(refspec));
    out
}

/// Copy of a revision list, byte for byte.
pub fn clone_commits(v: &Vec<GitRevision>) -> (r: Vec<GitRevision>)
    ensures
        r@.len() == v@.len(),
        forall|i: int| 0 <= i < v@.len() ==> r@[i]@ == #[trigger] v@[i]@,
{
    let mut out: Vec<GitRevision> = Vec::new();
    let mut i: usize = 0;
    while i < v.len()
        invariant
            i <= v@.len(),
            out@.len() == i,
            forall|j: int| 0 <= j < i ==> out@[j]@ == #[trigger] v@[j]@,
        decreases v@.len() - i,
    {
        out.push(v[i].clone());
        i = i + 1;
    }
    out
}

/// Appends every commit of `src` to `dst`.
pub fn merge_commits(dst: &mut Vec<GitRevision>, src: &Vec<GitRevision>)
    ensures
        final(dst)@.len() == old(dst)@.len() + src@.len(),
        forall|i: int| 0 <= i < old(dst)@.len() ==> final(dst)@[i]@ == #[trigger] old(dst)@[i]@,
        forall|i: int|
            0 <= i < src@.len() ==> final(dst)@[old(dst)@.len() + i]@ == #[trigger] src@[i]@,
{
    let ghost base = dst@.len();
    let mut i: usize = 0;
    while i < src.len()
        invariant
            i <= src@.len(),
            dst@.len() == base + i,
            forall|j: int| 0 <= j < base ==> dst@[j]@ == #[trigger] old(dst)@[j]@,
            forall|j: int| 0 <= j < i ==> dst@[base + j]@ == #[trigger] src@[j]@,
        decreases src@.len() - i,
    {
        dst.push(src[i].clone());
        i = i + 1;
    }
}

/// Copy of a tag table, entry for entry.
fn clone_tags(v: &Vec<TagEntry>) -> (r: Vec<TagEntry>)
    ensures
        r@.len() == v@.len(),
        forall|i: int| 0 <= i < v@.len() ==> r@[i]@ == #[trigger] v@[i]@,
{
    let mut out: Vec<TagEntry> = Vec::new();
    let mut i: usize = 0;
    while i < v.len()
        invariant
            i <= v@.len(),
            out@.len() == i,
            forall|j: int| 0 <= j < i ==> out@[j]@ == #[trigger] v@[j]@,
        decreases v@.len() - i,
    {
        let target = match &v[i].target {
            Some(r) => Some(r.clone()),
            None => None,
        };
        out.push(TagEntry { name: clone_string(&v[i].name), target });
        i = i + 1;
    }
    out
}

/// Copy of a branch table, entry for entry.
fn clone_branches(v: &Vec<BranchEntry>) -> (r: Vec<BranchEntry>)
    ensures
        r@.len() == v@.len(),
        forall|i: int| 0 <= i < v@.len() ==> r@[i]@ == #[trigger] v@[i]@,
{
    let mut out: Vec<BranchEntry> = Vec::new();
    let mut i: usize = 0;
    while i < v.len()
        invariant
            i <= v@.len(),
            out@.len() == i,
            forall|j: int| 0 <= j < i ==> out@[j]@ == #[trigger] v@[j]@,
        decreases v@.len() - i,
    {
        let target = match &v[i].target {
            Some(r) => Some(r.clone()),
            None => None,
        };
        out.push(BranchEntry { name: clone_string(&v[i].name), target });
        i = i + 1;
    }
    out
}

/// Copy of a revision-expression table, entry for entry.
fn clone_revs(v: &Vec<RevEntry>) -> (r: Vec<RevEntry>)
    ensures
        r@.len() == v@.len(),
        forall|i: int| 0 <= i < v@.len() ==> r@[i]@ == #[trigger] v@[i]@,
{
    let mut out: Vec<RevEntry> = Vec::new();
    let mut i: usize = 0;
    while i < v.len()
        invariant
            i <= v@.len(),
            out@.len() == i,
            forall|j: int| 0 <= j < i ==> out@[j]@ == #[trigger] v@[j]@,
        decreases v@.len() - i,
    {
        out.push(RevEntry { expr: clone_string(&v[i].expr), target: v[i].target.clone() });
        i = i + 1;
    }
    out
}

/// What one fetch (branch refspec plus the fixed tag refspec) does to a
/// local object store: the fetched refs replace the local view of tags and
/// branches, newly reachable objects join the graph, and every revision
/// expression the store could already evaluate still evaluates (new
/// expressions take precedence).
pub fn fetch(existing: &ObjectStore, upstream: &ObjectStore) -> (r: ObjectStore)
    ensures
        r.tags@.map_values(|t: TagEntry| t@) == upstream.tags@.map_values(|t: TagEntry| t@),
        r.branches@.map_values(|b: BranchEntry| b@) == upstream.branches@.map_values(
            |b: BranchEntry| b@,
        ),
        r.revs@.len() == upstream.revs@.len() + existing.revs@.len(),
        forall|i: int| 0 <= i < upstream.revs@.len() ==> r.revs@[i]@ == #[trigger] upstream.revs@[i]@,
        forall|i: int|
            0 <= i < existing.revs@.len() ==> r.revs@[upstream.revs@.len() + i]@
                == #[trigger] existing.revs@[i]@,
        r.commits@.len() == existing.commits@.len() + upstream.commits@.len(),
        forall|i: int|
            0 <= i < existing.commits@.len() ==> r.commits@[i]@ == #[trigger] existing.commits@[i]@,
        forall|i: int|
            0 <= i < upstream.commits@.len() ==> r.commits@[existing.commits@.len() + i]@
                == #[trigger] upstream.commits@[i]@,
        existing.wf() && upstream.wf() ==> r.wf(),
{
    let mut revs = clone_revs(&upstream.revs);
    let ghost new_len = revs@.len();
    let mut k: usize = 0;
    while k < existing.revs.len()
        invariant
            k <= existing.revs@.len(),
            revs@.len() == new_len + k,
            new_len == upstream.revs@.len(),
            forall|i: int| 0 <= i < new_len ==> revs@[i]@ == #[trigger] upstream.revs@[i]@,
            forall|i: int| 0 <= i < k ==> revs@[new_len + i]@ == #[trigger] existing.revs@[i]@,
        decreases existing.revs@.len() - k,
    {
        revs.push(
            RevEntry {
                expr: clone_string(&existing.revs[k].expr),
                target: existing.revs[k].target.clone(),
            },
        );
        k = k + 1;
    }
    let mut commits = clone_commits(&existing.commits);
    merge_commits(&mut commits, &upstream.commits);
    let out = ObjectStore {
        tags: clone_tags(&upstream.tags),
        branches: clone_branches(&upstream.branches),
        revs,
        commits,
    };
    proof {
        assert(out.tags@.map_values(|t: TagEntry| t@) =~= upstream.tags@.map_values(
            |t: TagEntry| t@,
        ));
        assert(out.branches@.map_values(|b: BranchEntry| b@) =~= upstream.branches@.map_values(
            |b: BranchEntry| b@,
        ));
        if existing.wf() && upstream.wf() {
            lemma_fetch_preserves_wf(existing, upstream, &out);
        }
    }
    out
}

/// A fetch into a well-formed store from a well-formed upstream leaves a
/// well-formed store: every ref target still names a commit present in the
/// merged object graph.
proof fn lemma_fetch_preserves_wf(existing: &ObjectStore, upstream: &ObjectStore, out: &ObjectStore)
    requires
        existing.wf(),
        upstream.wf(),
        out.tags@.len() == upstream.tags@.len(),
        forall|i: int| 0 <= i < upstream.tags@.len() ==> out.tags@[i]@ == #[trigger] upstream.tags@[i]@,
        out.branches@.len() == upstream.branches@.len(),
        forall|i: int|
            0 <= i < upstream.branches@.len() ==> out.branches@[i]@
                == #[trigger] upstream.branches@[i]@,
        out.revs@.len() == upstream.revs@.len() + existing.revs@.len(),
        forall|i: int|
            0 <= i < upstream.revs@.len() ==> out.revs@[i]@ == #[trigger] upstream.revs@[i]@,
        forall|i: int|
            0 <= i < existing.revs@.len() ==> out.revs@[upstream.revs@.len() + i]@
                == #[trigger] existing.revs@[i]@,
        out.commits@.len() == existing.commits@.len() + upstream.commits@.len(),
        forall|i: int|
            0 <= i < existing.commits@.len() ==> out.commits@[i]@ == #[trigger] existing.commits@[i]@,
        forall|i: int|
            0 <= i < upstream.commits@.len() ==> out.commits@[existing.commits@.len() + i]@
                == #[trigger] upstream.commits@[i]@,
    ensures
        out.wf(),
{
    assert forall|k: int| 0 <= k < upstream.commits@.len() implies has_commit(
        out,
        #[trigger] upstream.commits@[k]@,
    ) by {
        assert(out.commits@[existing.commits@.len() + k]@ == upstream.commits@[k]@);
    }
    assert forall|k: int| 0 <= k < existing.commits@.len() implies has_commit(
        out,
        #[trigger] existing.commits@[k]@,
    ) by {
        assert(out.commits@[k]@ == existing.commits@[k]@);
    }
    assert forall|i: int| 0 <= i < out.tags@.len() implies match #[trigger] out.tags@[i].target {
        Some(r) => r.wf() && has_commit(out, r@),
        None => true,
    } by {
        assert(out.tags@[i]@ == upstream.tags@[i]@);
        match out.tags@[i].target {
            Some(r) => {
                match upstream.tags@[i].target {
                    Some(u) => {
                        assert(r@ == u@);
                        let j = choose|j: int|
                            0 <= j < upstream.commits@.len() && #[trigger] upstream.commits@[j]@
                                == u@;
                        assert(has_commit(out, upstream.commits@[j]@));
                    },
                    None => {
                        assert(false);
                    },
                }
            },
            None => {},
        }
    }
    assert forall|i: int|
        0 <= i < out.branches@.len() implies match #[trigger] out.branches@[i].target {
        Some(r) => r.wf() && has_commit(out, r@),
        None => true,
    } by {
        assert(out.branches@[i]@ == upstream.branches@[i]@);
        match out.branches@[i].target {
            Some(r) => {
                match upstream.branches@[i].target {
                    Some(u) => {
                        assert(r@ == u@);
                        let j = choose|j: int|
                            0 <= j < upstream.commits@.len() && #[trigger] upstream.commits@[j]@
                                == u@;
                        assert(has_commit(out, upstream.commits@[j]@));
                    },
                    None => {
                        assert(false);
                    },
                }
            },
            None => {},
        }
    }
    assert forall|i: int| 0 <= i < out.revs@.len() implies (#[trigger] out.revs@[i].target).wf()
        && has_commit(out, out.revs@[i].target@) by {
        if i < upstream.revs@.len() {
            assert(out.revs@[i]@ == upstream.revs@[i]@);
            let u = upstream.revs@[i].target;
            assert(out.revs@[i].target@ == u@);
            let j = choose|j: int|
                0 <= j < upstream.commits@.len() && #[trigger] upstream.commits@[j]@ == u@;
            assert(has_commit(out, upstream.commits@[j]@));
        } else {
            assert(out.revs@[i]@ == existing.revs@[i - upstream.revs@.len()]@);
            let u = existing.revs@[i - upstream.revs@.len()].target;
            assert(out.revs@[i].target@ == u@);
            let j = choose|j: int|
                0 <= j < existing.commits@.len() && #[trigger] existing.commits@[j]@ == u@;
            assert(has_commit(out, existing.commits@[j]@));
        }
    }
    assert forall|i: int| 0 <= i < out.commits@.len() implies (#[trigger] out.commits@[i]).wf() by {
        if i < existing.commits@.len() {
            assert(out.commits@[i]@ == existing.commits@[i]@);
        } else {
            assert(out.commits@[i]@ == upstream.commits@[i - existing.commits@.len()]@);
        }
    }
}

} // verus!
