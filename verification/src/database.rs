//! The repository cache: a local mirror of a remote's object graph, and
//! reference resolution against it.
//!
//! The mirror's observable content is held as plain data: the tags and
//! branches it knows, the revision expressions its object store can
//! evaluate, and the commits present in the object graph. Resolution is a
//! pure read of that data; it never touches the network.

use vstd::prelude::*;
use vstd::string::StringExecFns;
use crate::error::{contains_seq, lemma_concat_contains, one_frame, ErrorClass, GitError};
use crate::reference::GitReference;
use crate::remote::GitRemote;
use crate::revision::GitRevision;

verus! {

/// A tag the mirror knows. `target` is the commit the tag ultimately
/// points at once peeled; `None` records a tag whose peel fails (it does
/// not reach a commit), which resolution reports like a missing tag.
#[derive(Debug)]
pub struct TagEntry {
    pub name: String,
    pub target: Option<GitRevision>,
}

impl View for TagEntry {
    type V = (Seq<char>, Option<Seq<u8>>);

    open spec fn view(&self) -> (Seq<char>, Option<Seq<u8>>) {
        (
            self.name@,
            match self.target {
                Some(r) => Some(r@),
                None => None,
            },
        )
    }
}

/// A local branch the mirror knows. `target` is the commit its ref points
/// to; `None` records a branch without a target.
#[derive(Debug)]
pub struct BranchEntry {
    pub name: String,
    pub target: Option<GitRevision>,
}

impl View for BranchEntry {
    type V = (Seq<char>, Option<Seq<u8>>);

    open spec fn view(&self) -> (Seq<char>, Option<Seq<u8>>) {
        (
            self.name@,
            match self.target {
                Some(r) => Some(r@),
                None => None,
            },
        )
    }
}

/// A single-object revision expression the object store evaluates (a short
/// or long hash, `HEAD`, relative syntax), with the object it denotes.
#[derive(Debug)]
pub struct RevEntry {
    pub expr: String,
    pub target: GitRevision,
}

impl View for RevEntry {
    type V = (Seq<char>, Seq<u8>);

    open spec fn view(&self) -> (Seq<char>, Seq<u8>) {
        (self.expr@, self.target@)
    }
}

/// The observable content of a local object store.
#[derive(Debug)]
pub struct ObjectStore {
    pub tags: Vec<TagEntry>,
    pub branches: Vec<BranchEntry>,
    pub revs: Vec<RevEntry>,
    /// Commits present in the object graph.
    pub commits: Vec<GitRevision>,
}

/// The tag table, read at the level of character and byte sequences.
pub open spec fn tags_view(store: &ObjectStore) -> Seq<(Seq<char>, Option<Seq<u8>>)> {
    store.tags@.map_values(|t: TagEntry| t@)
}

/// The branch table, read at the level of character and byte sequences.
pub open spec fn branches_view(store: &ObjectStore) -> Seq<(Seq<char>, Option<Seq<u8>>)> {
    store.branches@.map_values(|b: BranchEntry| b@)
}

/// The revision-expression table, read at the level of character and byte
/// sequences.
pub open spec fn revs_view(store: &ObjectStore) -> Seq<(Seq<char>, Seq<u8>)> {
    store.revs@.map_values(|r: RevEntry| r@)
}

/// The store's object graph holds the given commit.
pub open spec fn has_commit(store: &ObjectStore, rev: Seq<u8>) -> bool {
    exists|i: int| 0 <= i < store.commits@.len() && #[trigger] store.commits@[i]@ == rev
}

impl ObjectStore {
    /// Every target a table names is a well-formed revision present in the
    /// object graph.
    pub open spec fn wf(&self) -> bool {
        &&& forall|i: int|
            0 <= i < self.tags@.len() ==> match #[trigger] self.tags@[i].target {
                Some(r) => r.wf() && has_commit(self, r@),
                None => true,
            }
        &&& forall|i: int|
            0 <= i < self.branches@.len() ==> match #[trigger] self.branches@[i].target {
                Some(r) => r.wf() && has_commit(self, r@),
                None => true,
            }
        &&& forall|i: int|
            0 <= i < self.revs@.len() ==> (#[trigger] self.revs@[i].target).wf() && has_commit(
                self,
                self.revs@[i].target@,
            )
        &&& forall|i: int| 0 <= i < self.commits@.len() ==> (#[trigger] self.commits@[i]).wf()
    }
}

/// First entry of a name table matching `name`, if any.
pub open spec fn lookup_named(
    entries: Seq<(Seq<char>, Option<Seq<u8>>)>,
    name: Seq<char>,
) -> Option<Option<Seq<u8>>>
    decreases entries.len(),
{
    if entries.len() == 0 {
        None
    } else if entries[0].0 == name {
        Some(entries[0].1)
    } else {
        lookup_named(entries.drop_first(), name)
    }
}

/// First revision-expression entry matching `expr`, if any.
pub open spec fn lookup_rev(entries: Seq<(Seq<char>, Seq<u8>)>, expr: Seq<char>) -> Option<Seq<u8>>
    decreases entries.len(),
{
    if entries.len() == 0 {
        None
    } else if entries[0].0 == expr {
        Some(entries[0].1)
    } else {
        lookup_rev(entries.drop_first(), expr)
    }
}

/// Message of the user-facing error for a tag that cannot be resolved.
pub open spec fn tag_not_found_msg(name: Seq<char>) -> Seq<char> {
    "failed to find tag `"@ + name + "`"@
}

/// Message of the user-facing error for a branch that cannot be found.
pub open spec fn branch_not_found_msg(name: Seq<char>) -> Seq<char> {
    "failed to find branch `"@ + name + "`"@
}

/// Message of the user-facing error for a branch without a target.
pub open spec fn branch_no_target_msg(name: Seq<char>) -> Seq<char> {
    "branch `"@ + name + "` did not have a target"@
}

/// Message of the internal error for a revision expression the object
/// store cannot evaluate.
pub open spec fn rev_not_found_msg(expr: Seq<char>) -> Seq<char> {
    "revision expression not found: "@ + expr
}

/// What resolving a reference against a store returns: the revision's
/// bytes, or the exact error chain.
///
/// - A tag resolves to the commit it peels to; a missing tag, or one whose
///   peel fails, is a user-facing error naming the tag.
/// - A branch resolves to its target; a missing branch is a user-facing
///   error naming it, and a branch without a target chains that error over
///   one saying so.
/// - A revision expression resolves through the object store directly; a
///   failure there is a low-level internal error, not humanized.
pub open spec fn resolve_model(store: &ObjectStore, reference: &GitReference) -> Result<
    Seq<u8>,
    Seq<(ErrorClass, Seq<char>)>,
> {
    match reference {
        GitReference::Tag(s) => match lookup_named(tags_view(store), s@) {
            Some(Some(r)) => Ok(r),
            _ => Err(one_frame(ErrorClass::UserFacing, tag_not_found_msg(s@))),
        },
        GitReference::Branch(s) => match lookup_named(branches_view(store), s@) {
            Some(Some(r)) => Ok(r),
            Some(None) => Err(
                one_frame(ErrorClass::UserFacing, branch_not_found_msg(s@)) + one_frame(
                    ErrorClass::UserFacing,
                    branch_no_target_msg(s@),
                ),
            ),
            None => Err(one_frame(ErrorClass::UserFacing, branch_not_found_msg(s@))),
        },
        GitReference::Rev(s) => match lookup_rev(revs_view(store), s@) {
            Some(r) => Ok(r),
            None => Err(one_frame(ErrorClass::Internal, rev_not_found_msg(s@))),
        },
    }
}

/// Two strings hold the same characters.
pub fn string_eq(a: &String, b: &String) -> (r: bool)
    ensures
        r == (a@ == b@),
{
    a.eq(b)
}

/// Index of the first tag entry named `name`, tied to the spec-level
/// lookup.
fn scan_tags(tags: &Vec<TagEntry>, name: &String) -> (r: Option<usize>)
    ensures
        match r {
            Some(i) => i < tags@.len() && lookup_named(
                tags@.map_values(|t: TagEntry| t@),
                name@,
            ) == Some(tags@[i as int]@.1),
            None => lookup_named(tags@.map_values(|t: TagEntry| t@), name@) is None,
        },
{
    let ghost full = tags@.map_values(|t: TagEntry| t@);
    let mut i: usize = 0;
    proof {
        assert(full.skip(0) =~= full);
    }
    while i < tags.len()
        invariant
            i <= tags@.len(),
            full == tags@.map_values(|t: TagEntry| t@),
            lookup_named(full, name@) == lookup_named(full.skip(i as int), name@),
        decreases tags@.len() - i,
    {
        if string_eq(&tags[i].name, name) {
            proof {
                assert(full.skip(i as int)[0] == tags@[i as int]@);
            }
            return Some(i);
        }
        i = i + 1;
        proof {
            assert(full.skip(i - 1).drop_first() =~= full.skip(i as int));
        }
    }
    proof {
        assert(full.skip(tags@.len() as int) =~= Seq::<(Seq<char>, Option<Seq<u8>>)>::empty());
    }
    None
}

/// Index of the first branch entry named `name`, tied to the spec-level
/// lookup.
fn scan_branches(branches: &Vec<BranchEntry>, name: &String) -> (r: Option<usize>)
    ensures
        match r {
            Some(i) => i < branches@.len() && lookup_named(
                branches@.map_values(|b: BranchEntry| b@),
                name@,
            ) == Some(branches@[i as int]@.1),
            None => lookup_named(branches@.map_values(|b: BranchEntry| b@), name@) is None,
        },
{
    let ghost full = branches@.map_values(|b: BranchEntry| b@);
    let mut i: usize = 0;
    proof {
        assert(full.skip(0) =~= full);
    }
    while i < branches.len()
        invariant
            i <= branches@.len(),
            full == branches@.map_values(|b: BranchEntry| b@),
            lookup_named(full, name@) == lookup_named(full.skip(i as int), name@),
        decreases branches@.len() - i,
    {
        if string_eq(&branches[i].name, name) {
            proof {
                assert(full.skip(i as int)[0] == branches@[i as int]@);
            }
            return Some(i);
        }
        i = i + 1;
        proof {
            assert(full.skip(i - 1).drop_first() =~= full.skip(i as int));
        }
    }
    proof {
        assert(full.skip(branches@.len() as int) =~= Seq::<(Seq<char>, Option<Seq<u8>>)>::empty());
    }
    None
}

/// Index of the first revision-expression entry matching `expr`, tied to
/// the spec-level lookup.
fn scan_revs(revs: &Vec<RevEntry>, expr: &String) -> (r: Option<usize>)
    ensures
        match r {
            Some(i) => i < revs@.len() && lookup_rev(
                revs@.map_values(|e: RevEntry| e@),
                expr@,
            ) == Some(revs@[i as int]@.1),
            None => lookup_rev(revs@.map_values(|e: RevEntry| e@), expr@) is None,
        },
{
    let ghost full = revs@.map_values(|e: RevEntry| e@);
    let mut i: usize = 0;
    proof {
        assert(full.skip(0) =~= full);
    }
    while i < revs.len()
        invariant
            i <= revs@.len(),
            full == revs@.map_values(|e: RevEntry| e@),
            lookup_rev(full, expr@) == lookup_rev(full.skip(i as int), expr@),
        decreases revs@.len() - i,
    {
        if string_eq(&revs[i].expr, expr) {
            proof {
                assert(full.skip(i as int)[0] == revs@[i as int]@);
            }
            return Some(i);
        }
        i = i + 1;
        proof {
            assert(full.skip(i - 1).drop_first() =~= full.skip(i as int));
        }
    }
    proof {
        assert(full.skip(revs@.len() as int) =~= Seq::<(Seq<char>, Seq<u8>)>::empty());
    }
    None
}

/// The user-facing error for a tag that cannot be resolved.
fn tag_not_found_err(name: &String) -> (r: GitError)
    ensures
        r@ == one_frame(ErrorClass::UserFacing, tag_not_found_msg(name@)),
{
    let mut msg = String::from_str("failed to find tag `");
    msg.append(name.as_str());
    msg.append("`");
    GitError::human(msg)
}

/// The user-facing error for a branch that cannot be found.
fn branch_not_found_err(name: &String) -> (r: GitError)
    ensures
        r@ == one_frame(ErrorClass::UserFacing, branch_not_found_msg(name@)),
{
    let mut msg = String::from_str("failed to find branch `");
    msg.append(name.as_str());
    msg.append("`");
    GitError::human(msg)
}

/// The user-facing error for a branch without a target, chained under the
/// error naming the branch.
fn branch_no_target_err(name: &String) -> (r: GitError)
    ensures
        r@ == one_frame(ErrorClass::UserFacing, branch_not_found_msg(name@)) + one_frame(
            ErrorClass::UserFacing,
            branch_no_target_msg(name@),
        ),
{
    let mut inner = String::from_str("branch `");
    inner.append(name.as_str());
    inner.append("` did not have a target");
    let mut outer = String::from_str("failed to find branch `");
    outer.append(name.as_str());
    outer.append("`");
    GitError::human(inner).chain(ErrorClass::UserFacing, outer)
}

/// The internal error for a revision expression the object store cannot
/// evaluate.
fn rev_not_found_err(expr: &String) -> (r: GitError)
    ensures
        r@ == one_frame(ErrorClass::Internal, rev_not_found_msg(expr@)),
{
    let mut msg = String::from_str("revision expression not found: ");
    msg.append(expr.as_str());
    GitError::internal(msg)
}

/// A local mirror of a remote repository's object graph. Many checkouts
/// may be cloned from one database; they read it and never write it.
#[derive(Debug)]
pub struct GitDatabase {
    pub remote: GitRemote,
    pub path: String,
    pub store: ObjectStore,
}

impl GitDatabase {
    /// The cache path this database lives at.
    pub fn get_path(&self) -> (r: &String)
        ensures
            r@ == self.path@,
    {
        &self.path
    }

    /// Resolves a symbolic reference into the revision it denotes, as a
    /// pure read of the local object store. Returns exactly what
    /// [`resolve_model`] says: the revision for the reference, or the
    /// error chain for a reference the store cannot resolve.
    pub fn rev_for(&self, reference: &GitReference) -> (r: Result<GitRevision, GitError>)
        ensures
            match r {
                Ok(rev) => resolve_model(&self.store, reference) == Result::<
                    Seq<u8>,
                    Seq<(ErrorClass, Seq<char>)>,
                >::Ok(rev@) && (self.store.wf() ==> rev.wf() && has_commit(&self.store, rev@)),
                Err(e) => resolve_model(&self.store, reference) == Result::<
                    Seq<u8>,
                    Seq<(ErrorClass, Seq<char>)>,
                >::Err(e@),
            },
    {
        match reference {
            GitReference::Tag(s) => match scan_tags(&self.store.tags, s) {
                Some(i) => match &self.store.tags[i].target {
                    Some(rev) => Ok(rev.clone()),
                    None => Err(tag_not_found_err(s)),
                },
                None => Err(tag_not_found_err(s)),
            },
            GitReference::Branch(s) => match scan_branches(&self.store.branches, s) {
                Some(i) => match &self.store.branches[i].target {
                    Some(rev) => Ok(rev.clone()),
                    None => Err(branch_no_target_err(s)),
                },
                None => Err(branch_not_found_err(s)),
            },
            GitReference::Rev(s) => match scan_revs(&self.store.revs, s) {
                Some(i) => Ok(self.store.revs[i].target.clone()),
                None => Err(rev_not_found_err(s)),
            },
        }
    }

    /// Existence probe: attempts the same single-object lookup as a `Rev`
    /// reference and reports success or failure without returning the id.
    pub fn has_ref(&self, reference: &String) -> (r: Result<(), GitError>)
        ensures
            r is Ok <==> lookup_rev(revs_view(&self.store), reference@) is Some,
            r matches Err(e) ==> e@ == one_frame(ErrorClass::Internal, rev_not_found_msg(
                reference@,
            )),
    {
        match scan_revs(&self.store.revs, reference) {
            Some(_) => Ok(()),
            None => Err(rev_not_found_err(reference)),
        }
    }
}

/// Law: resolution is deterministic. Two databases whose stores read the
/// same — equal tag, branch and revision-expression tables — resolve every
/// reference identically; in particular, resolving the same reference
/// twice against an unchanged database returns an identical revision id.
pub proof fn lemma_resolution_deterministic(
    a: &ObjectStore,
    b: &ObjectStore,
    reference: &GitReference,
)
    requires
        tags_view(a) == tags_view(b),
        branches_view(a) == branches_view(b),
        revs_view(a) == revs_view(b),
    ensures
        resolve_model(a, reference) == resolve_model(b, reference),
{
}

/// Law: resolving a nonexistent tag yields a user-facing error whose
/// message contains that exact tag name; resolving a nonexistent branch
/// (or one without a target) likewise names that branch.
pub proof fn lemma_missing_reference_named(store: &ObjectStore, reference: &GitReference)
    ensures
        reference matches GitReference::Tag(s) ==> (resolve_model(store, reference) matches Err(e)
            ==> e.len() >= 1 && e[0].0 is UserFacing && contains_seq(e[0].1, s@)),
        reference matches GitReference::Branch(s) ==> (resolve_model(store, reference) matches Err(
            e,
        ) ==> e.len() >= 1 && e[0].0 is UserFacing && contains_seq(e[0].1, s@)),
{
    match reference {
        GitReference::Tag(s) => {
            if resolve_model(store, reference) is Err {
                lemma_concat_contains("failed to find tag `"@, s@, "`"@);
            }
        },
        GitReference::Branch(s) => {
            if resolve_model(store, reference) is Err {
                lemma_concat_contains("failed to find branch `"@, s@, "`"@);
            }
        },
        GitReference::Rev(_) => {},
    }
}

} // verus!
