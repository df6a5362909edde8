//! Recursive submodule synchronization.
//!
//! Each tree may declare submodules: nested repositories pinned to a
//! recorded commit. Synchronization walks the declared forest, clones or
//! repairs each submodule whose pinned commit is not already checked out,
//! and recurses into the submodules of every submodule it touched. A
//! submodule already at its recorded commit is the base case: it is left
//! alone, which bounds the walk to exactly the entries whose pinned commit
//! changed.
//!
//! The walk runs over a finite declared forest, so it terminates by
//! construction: a cyclic submodule graph cannot be represented as a
//! value of [`SubmoduleNode`], and a driver observing an (incorrect)
//! cyclic graph must cut it off at a chosen depth when building the
//! forest.

use vstd::prelude::*;
use vstd::string::StringExecFns;
use crate::checkout::RepoState;
use crate::error::{clone_string, one_frame, ErrorClass, GitError};
use crate::fetch::{clone_commits, merge_commits};
use crate::revision::GitRevision;

verus! {

/// One submodule as declared in a parent tree, together with the local and
/// upstream state the walk observes for it.
#[derive(Debug)]
pub struct SubmoduleNode {
    /// The submodule's name in the parent's configuration.
    pub name: String,
    /// The submodule's remote URL; `None` records a URL that is not valid
    /// text, which synchronization refuses.
    pub url: Option<String>,
    /// The commit the parent tree pins; `None` for an entry declared but
    /// never checked out upstream, which is inert, not an error.
    pub recorded: Option<GitRevision>,
    /// The local working copy at the submodule's path, if one exists.
    pub local: Option<RepoState>,
    /// The commits fetching the submodule's own URL provides.
    pub upstream: Vec<GitRevision>,
    /// The submodules the submodule's own tree declares at the recorded
    /// commit.
    pub children: Vec<SubmoduleNode>,
}

/// A revision list holds the given commit.
pub open spec fn seq_has_rev(s: Seq<GitRevision>, rev: Seq<u8>) -> bool {
    exists|i: int| 0 <= i < s.len() && #[trigger] s[i]@ == rev
}

/// Height of a submodule forest: one more than the tallest child forest.
pub open spec fn forest_height(s: Seq<SubmoduleNode>) -> nat
    decreases s,
{
    if s.len() == 0 {
        0
    } else {
        let h0 = 1 + forest_height(s[0].children@);
        let hr = forest_height(s.drop_first());
        if h0 > hr {
            h0
        } else {
            hr
        }
    }
}

/// A submodule is already checked out at exactly its recorded commit.
pub open spec fn already_fresh(n: SubmoduleNode) -> bool {
    match n.recorded {
        Some(r) => match n.local {
            Some(repo) => match repo.head {
                Some(h) => h@ == r@,
                None => false,
            },
            None => false,
        },
        None => false,
    }
}

/// The recorded commit is reachable once the submodule is cloned or
/// fetched: it is already local, or its own remote provides it.
pub open spec fn reset_reachable(n: SubmoduleNode, r: GitRevision) -> bool {
    match n.local {
        Some(repo) => seq_has_rev(repo.commits@, r@) || seq_has_rev(n.upstream@, r@),
        None => seq_has_rev(n.upstream@, r@),
    }
}

/// One node can be brought to its recorded commit without an error: its
/// URL is valid text, and if work is needed the recorded commit is
/// reachable.
pub open spec fn node_ready(n: SubmoduleNode) -> bool {
    n.url is Some && (match n.recorded {
        None => true,
        Some(r) => already_fresh(n) || reset_reachable(n, r),
    })
}

/// The walk must descend into this node's own submodules.
pub open spec fn needs_recursion(n: SubmoduleNode) -> bool {
    n.recorded is Some && !already_fresh(n)
}

/// The whole forest synchronizes without an error.
pub open spec fn can_sync(s: Seq<SubmoduleNode>) -> bool
    decreases s,
{
    if s.len() == 0 {
        true
    } else {
        &&& node_ready(s[0])
        &&& (needs_recursion(s[0]) ==> can_sync(s[0].children@))
        &&& can_sync(s.drop_first())
    }
}

/// Every declared submodule with a non-empty recorded head is checked out
/// at exactly that commit, recursively, at every nesting depth.
pub open spec fn all_synced(s: Seq<SubmoduleNode>) -> bool
    decreases s,
{
    if s.len() == 0 {
        true
    } else {
        &&& (match s[0].recorded {
            None => true,
            Some(r) => (match s[0].local {
                Some(repo) => repo.head matches Some(h) && h@ == r@,
                None => false,
            }) && all_synced(s[0].children@),
        })
        &&& all_synced(s.drop_first())
    }
}

/// Validity of the observed forest: a submodule already at its recorded
/// commit got there through an earlier walk, so its own subtree is
/// already synchronized. The base case of the walk relies on this.
pub open spec fn fresh_subtrees_synced(s: Seq<SubmoduleNode>) -> bool
    decreases s,
{
    if s.len() == 0 {
        true
    } else {
        &&& (already_fresh(s[0]) ==> all_synced(s[0].children@))
        &&& fresh_subtrees_synced(s[0].children@)
        &&& fresh_subtrees_synced(s.drop_first())
    }
}

/// Spec-level image of an optional string.
pub open spec fn opt_str_view(u: Option<String>) -> Option<Seq<char>> {
    match u {
        Some(s) => Some(s@),
        None => None,
    }
}

/// Spec-level image of an optional revision.
pub open spec fn opt_rev_view(u: Option<GitRevision>) -> Option<Seq<u8>> {
    match u {
        Some(r) => Some(r@),
        None => None,
    }
}

/// Two forests declare the same submodules: same names, URLs and recorded
/// commits, recursively.
pub open spec fn same_decl(a: Seq<SubmoduleNode>, b: Seq<SubmoduleNode>) -> bool
    decreases a,
{
    &&& a.len() == b.len()
    &&& (a.len() == 0 || {
        &&& a[0].name@ == b[0].name@
        &&& opt_str_view(a[0].url) == opt_str_view(b[0].url)
        &&& opt_rev_view(a[0].recorded) == opt_rev_view(b[0].recorded)
        &&& same_decl(a[0].children@, b[0].children@)
        &&& same_decl(a.drop_first(), b.drop_first())
    })
}

/// A forest declares the same submodules as itself.
pub proof fn lemma_same_decl_refl(s: Seq<SubmoduleNode>)
    ensures
        same_decl(s, s),
    decreases s,
{
    if s.len() > 0 {
        lemma_same_decl_refl(s[0].children@);
        lemma_same_decl_refl(s.drop_first());
    }
}

/// Message of the error for a submodule whose URL is not valid text.
pub open spec fn non_utf8_url_msg() -> Seq<char> {
    "non-utf8 url for submodule"@
}

/// Message of the error for a submodule whose recorded commit its remote
/// does not provide.
pub open spec fn submodule_fetch_msg(name: Seq<char>, url: Seq<char>) -> Seq<char> {
    "failed to fetch submodule `"@ + name + "` from "@ + url
}

/// A node's own failure, apart from its children: a URL that is not valid
/// text, or a recorded commit that stays unreachable after the fetch.
pub open spec fn node_fails_itself(n: SubmoduleNode) -> bool {
    n.url is None || (match n.recorded {
        None => false,
        Some(r) => !already_fresh(n) && !reset_reachable(n, r),
    })
}

/// The error one failing node reports: its invalid URL, its unreachable
/// recorded commit, or the error of its own failing subtree.
pub open spec fn node_error(n: SubmoduleNode) -> Seq<(ErrorClass, Seq<char>)>
    decreases n,
{
    if n.url is None {
        seq![(ErrorClass::Internal, non_utf8_url_msg())]
    } else if (match n.recorded {
        None => false,
        Some(r) => !already_fresh(n) && !reset_reachable(n, r),
    }) {
        seq![
            (
                ErrorClass::Internal,
                submodule_fetch_msg(
                    n.name@,
                    match n.url {
                        Some(u) => u@,
                        None => Seq::<char>::empty(),
                    },
                ),
            ),
        ]
    } else {
        sync_error(n.children@)
    }
}

/// The error a failing walk returns: the walk aborts at the first failing
/// submodule, in declaration order, descending into children before
/// moving to the next sibling.
pub open spec fn sync_error(s: Seq<SubmoduleNode>) -> Seq<(ErrorClass, Seq<char>)>
    decreases s,
{
    if s.len() == 0 {
        Seq::<(ErrorClass, Seq<char>)>::empty()
    } else if node_fails_itself(s[0]) || (needs_recursion(s[0]) && !can_sync(s[0].children@)) {
        node_error(s[0])
    } else {
        sync_error(s.drop_first())
    }
}

/// A revision list holds the given commit.
pub fn contains_rev(v: &Vec<GitRevision>, rev: &GitRevision) -> (r: bool)
    ensures
        r == seq_has_rev(v@, rev@),
{
    let mut i: usize = 0;
    while i < v.len()
        invariant
            i <= v@.len(),
            forall|j: int| 0 <= j < i ==> #[trigger] v@[j]@ != rev@,
        decreases v@.len() - i,
    {
        let candidate = &v[i];
        if candidate.eq(rev) {
            return true;
        }
        i = i + 1;
    }
    false
}

/// Synchronizes one submodule: refuses a non-text URL, leaves an entry
/// with no recorded head inert, leaves a fresh checkout alone, and
/// otherwise clones or reuses the local copy, fetches from the
/// submodule's own URL, resets to the recorded commit, and recurses into
/// the submodule's own submodules.
fn sync_node(n: SubmoduleNode) -> (r: Result<SubmoduleNode, GitError>)
    requires
        already_fresh(n) ==> all_synced(n.children@),
        fresh_subtrees_synced(n.children@),
    ensures
        r is Ok <==> node_ready(n) && (needs_recursion(n) ==> can_sync(n.children@)),
        r matches Ok(m) ==> {
            &&& (match m.recorded {
                None => true,
                Some(r2) => (m.local matches Some(repo) && repo.head matches Some(h) && h@
                    == r2@) && all_synced(m.children@),
            })
            &&& m.name@ == n.name@
            &&& opt_str_view(m.url) == opt_str_view(n.url)
            &&& opt_rev_view(m.recorded) == opt_rev_view(n.recorded)
            &&& same_decl(n.children@, m.children@)
        },
        r matches Err(e) ==> e@.len() >= 1 && (forall|i: int|
            0 <= i < e@.len() ==> (#[trigger] e@[i]).0 is Internal) && e@ == node_error(n),
    decreases 1 + forest_height(n.children@), 0int,
{
    let SubmoduleNode { name, url, recorded, local, upstream, children } = n;
    // Initialize the submodule's config entry; in this model that carries
    // no observable state. The URL must be valid text before anything
    // else.
    let url = match url {
        Some(u) => u,
        None => {
            return Err(GitError::internal(String::from_str("non-utf8 url for submodule")));
        },
    };
    // An entry declared but never checked out upstream has no head to pin:
    // ignore it.
    let rec = match recorded {
        None => {
            proof {
                lemma_same_decl_refl(children@);
            }
            return Ok(
                SubmoduleNode {
                    name,
                    url: Some(url),
                    recorded: None,
                    local,
                    upstream,
                    children,
                },
            );
        },
        Some(r) => r,
    };
    // Base case: already checked out at the recorded commit.
    let fresh = match &local {
        Some(repo) => match &repo.head {
            Some(h) => h.eq(&rec),
            None => false,
        },
        None => false,
    };
    if fresh {
        proof {
            lemma_same_decl_refl(children@);
        }
        return Ok(
            SubmoduleNode {
                name,
                url: Some(url),
                recorded: Some(rec),
                local,
                upstream,
                children,
            },
        );
    }
    // No local copy yet: clone from the submodule's own URL. A copy at the
    // wrong commit is reused.
    let ghost had_local = local is Some;
    let mut repo = match local {
        Some(repo) => repo,
        None => RepoState { head: None, commits: clone_commits(&upstream) },
    };
    let ghost pre = repo.commits@;
    // Fetch branch and tag refs from the submodule's own URL.
    merge_commits(&mut repo.commits, &upstream);
    proof {
        // The merged store holds the recorded commit exactly when the
        // local copy or the upstream list does, so reachability of the
        // recorded commit is decided exactly here.
        if seq_has_rev(repo.commits@, rec@) {
            let j = choose|j: int|
                0 <= j < repo.commits@.len() && #[trigger] repo.commits@[j]@ == rec@;
            if j < pre.len() {
                assert(pre[j]@ == rec@);
                if !had_local {
                    assert(upstream@[j]@ == rec@);
                }
            } else {
                assert(upstream@[j - pre.len()]@ == rec@);
            }
        }
        if seq_has_rev(pre, rec@) {
            let i = choose|i: int| 0 <= i < pre.len() && #[trigger] pre[i]@ == rec@;
            assert(repo.commits@[i]@ == rec@);
        }
        if seq_has_rev(upstream@, rec@) {
            let i = choose|i: int| 0 <= i < upstream@.len() && #[trigger] upstream@[i]@ == rec@;
            assert(repo.commits@[pre.len() + i]@ == rec@);
        }
        assert(seq_has_rev(repo.commits@, rec@) == reset_reachable(n, rec));
    }
    // Hard-reset to the recorded commit; a commit the remote does not
    // provide is the fetch's failure.
    if !contains_rev(&repo.commits, &rec) {
        let mut msg = String::from_str("failed to fetch submodule `");
        msg.append(name.as_str());
        msg.append("` from ");
        msg.append(url.as_str());
        return Err(GitError::internal(msg));
    }
    repo.head = Some(rec.clone());
    // Recurse into the submodule's own submodules.
    let children = match sync_forest(children) {
        Ok(c) => c,
        Err(e) => {
            return Err(e);
        },
    };
    Ok(
        SubmoduleNode {
            name,
            url: Some(url),
            recorded: Some(rec),
            local: Some(repo),
            upstream,
            children,
        },
    )
}

/// Synchronizes a whole declared forest, aborting on the first failing
/// submodule.
pub fn sync_forest(nodes: Vec<SubmoduleNode>) -> (r: Result<Vec<SubmoduleNode>, GitError>)
    requires
        fresh_subtrees_synced(nodes@),
    ensures
        r is Ok <==> can_sync(nodes@),
        r matches Ok(out) ==> all_synced(out@) && same_decl(nodes@, out@),
        r matches Err(e) ==> e@.len() >= 1 && (forall|i: int|
            0 <= i < e@.len() ==> (#[trigger] e@[i]).0 is Internal) && e@ == sync_error(nodes@),
    decreases forest_height(nodes@), nodes@.len(),
{
    let ghost orig = nodes@;
    let mut nodes = nodes;
    if nodes.len() == 0 {
        return Ok(nodes);
    }
    let first = nodes.remove(0);
    proof {
        assert(first == orig[0]);
        assert(nodes@ =~= orig.drop_first());
        assert(forest_height(orig) >= 1 + forest_height(orig[0].children@));
        assert(forest_height(orig.drop_first()) <= forest_height(orig));
    }
    let synced = match sync_node(first) {
        Ok(m) => m,
        Err(e) => {
            return Err(e);
        },
    };
    let mut rest = match sync_forest(nodes) {
        Ok(out) => out,
        Err(e) => {
            return Err(e);
        },
    };
    let ghost rest_view = rest@;
    rest.insert(0, synced);
    proof {
        assert(rest@[0] == synced);
        assert(rest@.drop_first() =~= rest_view);
        assert(all_synced(rest@));
        assert(same_decl(orig, rest@));
    }
    Ok(rest)
}

/// Law: synchronization pins every declared submodule. A successful walk
/// leaves a forest that declares the same submodules as the input, in
/// which every entry with a non-empty recorded head is checked out at
/// exactly that commit, recursively, at every nesting depth.
pub proof fn lemma_sync_pins_every_submodule(
    input: Seq<SubmoduleNode>,
    output: Seq<SubmoduleNode>,
    i: int,
)
    requires
        all_synced(output),
        same_decl(input, output),
        0 <= i < output.len(),
    ensures
        output.len() == input.len(),
        opt_rev_view(output[i].recorded) == opt_rev_view(input[i].recorded),
        output[i].recorded matches Some(r) ==> (output[i].local matches Some(repo)
            && repo.head matches Some(h) && h@ == r@) && all_synced(output[i].children@),
    decreases i,
{
    if i > 0 {
        lemma_sync_pins_every_submodule(input.drop_first(), output.drop_first(), i - 1);
        assert(output.drop_first()[i - 1] == output[i]);
        assert(input.drop_first()[i - 1] == input[i]);
    }
}

} // verus!
