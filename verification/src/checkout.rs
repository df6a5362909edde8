//! Working checkouts: materializing one pinned revision at a destination.
//!
//! The destination converges to `Present-Fresh` — a working tree whose
//! head equals the pinned revision — from any starting state: an absent
//! destination is cloned from the database's local path and reset; a
//! present but stale one is fetched into and reset; a fresh one is used as
//! it stands. Submodule synchronization always runs afterwards.

use vstd::prelude::*;
use vstd::string::StringExecFns;
use crate::database::{has_commit, string_eq, GitDatabase};
use crate::error::{one_frame, ErrorClass, GitError};
use crate::fetch::{clone_commits, merge_commits};
use crate::revision::{hex_of, lemma_hex_of_injective, GitRevision};
use crate::submodule::{
    all_synced, can_sync, fresh_subtrees_synced, same_decl, seq_has_rev, sync_error, sync_forest,
    SubmoduleNode,
};

verus! {

/// The observable state of one local working-tree repository: its current
/// head, and the commits its object store holds.
#[derive(Debug)]
pub struct RepoState {
    /// The commit `HEAD` resolves to; `None` when the lookup fails (an
    /// unborn or corrupt head), which counts as not fresh, never as an
    /// error.
    pub head: Option<GitRevision>,
    /// Commits present in the repository's object store.
    pub commits: Vec<GitRevision>,
}

/// The state found at a checkout destination.
#[derive(Debug)]
pub enum DestState {
    /// Nothing at the destination, or contents that do not open as a
    /// repository.
    Absent,
    /// A valid repository, in whatever condition.
    Present(RepoState),
}

/// The repair a destination needs to reach `Present-Fresh`.
pub enum CheckoutStep {
    /// Already fresh: no network and no reset.
    UseAsIs,
    /// Present but stale: fetch from the database's path, then hard-reset.
    FetchThenReset,
    /// Absent: clone the database's local path, then hard-reset.
    CloneThenReset,
}

/// Which repair materializing `rev` performs for a given destination
/// state.
pub open spec fn plan_for(dest: &DestState, rev: &GitRevision) -> CheckoutStep {
    match dest {
        DestState::Absent => CheckoutStep::CloneThenReset,
        DestState::Present(repo) => match repo.head {
            Some(h) => if h@ == rev@ {
                CheckoutStep::UseAsIs
            } else {
                CheckoutStep::FetchThenReset
            },
            None => CheckoutStep::FetchThenReset,
        },
    }
}

/// A local checkout of one particular revision, cloned from a database it
/// does not outlive.
#[derive(Debug)]
pub struct GitCheckout<'a> {
    /// The database this checkout was materialized from.
    pub database: &'a GitDatabase,
    /// The destination path.
    pub location: String,
    /// The pinned revision.
    pub revision: GitRevision,
    /// The working-tree repository at the destination.
    pub repo: RepoState,
}

/// Message of the internal error for a reset whose target object is
/// missing.
pub open spec fn reset_missing_msg() -> Seq<char> {
    "failed to find the object to reset to"@
}

/// Message of the internal context frame wrapped around a submodule
/// failure during materialization.
pub open spec fn update_submodules_msg() -> Seq<char> {
    "failed to update submodules"@
}

impl<'a> GitCheckout<'a> {
    /// Freshness: the working tree's current head equals the pinned
    /// revision exactly.
    pub open spec fn fresh(&self) -> bool {
        match self.repo.head {
            Some(h) => h@ == self.revision@,
            None => false,
        }
    }

    /// A checkout value for a repository found or created at `location`.
    pub fn new(
        location: String,
        database: &'a GitDatabase,
        revision: GitRevision,
        repo: RepoState,
    ) -> (c: GitCheckout<'a>)
        ensures
            c.location == location,
            c.database == database,
            c.revision == revision,
            c.repo == repo,
    {
        GitCheckout { database, location, revision, repo }
    }

    /// The freshness test: parse `HEAD` and compare its hex rendering to
    /// the pinned revision's. A head that cannot be parsed counts as not
    /// fresh — it forces repair rather than raising an error.
    pub fn is_fresh(&self) -> (r: bool)
        ensures
            r == self.fresh(),
    {
        match &self.repo.head {
            Some(h) => {
                let head_hex = h.to_hex();
                let rev_hex = self.revision.to_hex();
                let eq = string_eq(&head_hex, &rev_hex);
                proof {
                    if head_hex@ == rev_hex@ {
                        lemma_hex_of_injective(h@, self.revision@);
                    }
                }
                eq
            },
            None => false,
        }
    }

    /// Clones the database's local path (not the original remote URL) into
    /// the destination and hard-resets the working tree to the pinned
    /// revision. The reset is unconditional on first clone.
    pub fn clone_into(
        database: &'a GitDatabase,
        location: String,
        revision: GitRevision,
    ) -> (r: Result<GitCheckout<'a>, GitError>)
        requires
            has_commit(&database.store, revision@),
        ensures
            r is Ok,
            r matches Ok(c) ==> {
                &&& c.fresh()
                &&& c.database == database
                &&& c.location == location
                &&& c.revision == revision
                &&& c.repo.commits@.len() == database.store.commits@.len()
                &&& forall|i: int|
                    0 <= i < database.store.commits@.len() ==> c.repo.commits@[i]@
                        == #[trigger] database.store.commits@[i]@
            },
    {
        let repo = RepoState { head: None, commits: clone_commits(&database.store.commits) };
        let mut c = GitCheckout::new(location, database, revision, repo);
        proof {
            let i = choose|i: int|
                0 <= i < database.store.commits@.len() && #[trigger] database.store.commits@[i]@
                    == c.revision@;
            assert(c.repo.commits@[i]@ == c.revision@);
        }
        match c.reset() {
            Ok(()) => {},
            Err(e) => {
                return Err(e);
            },
        }
        Ok(c)
    }

    /// Fetches from the database's path into this checkout, with the same
    /// branch refspec used for database population (tags ride along): the
    /// database's objects become available here. Refreshes no head.
    pub fn fetch(&mut self) -> (r: Result<(), GitError>)
        ensures
            r is Ok,
            final(self).repo.head == old(self).repo.head,
            final(self).revision == old(self).revision,
            final(self).location == old(self).location,
            final(self).database == old(self).database,
            final(self).repo.commits@.len() == old(self).repo.commits@.len() + old(
                self,
            ).database.store.commits@.len(),
            forall|i: int|
                0 <= i < old(self).repo.commits@.len() ==> final(self).repo.commits@[i]@
                    == #[trigger] old(self).repo.commits@[i]@,
            forall|i: int|
                0 <= i < old(self).database.store.commits@.len() ==> final(self).repo.commits@[old(
                    self,
                ).repo.commits@.len() + i]@ == #[trigger] old(self).database.store.commits@[i]@,
    {
        let db = self.database;
        merge_commits(&mut self.repo.commits, &db.store.commits);
        Ok(())
    }

    /// Hard-resets the working tree to the pinned revision. Succeeds
    /// exactly when the repository's object store holds that revision.
    pub fn reset(&mut self) -> (r: Result<(), GitError>)
        ensures
            r is Ok <==> seq_has_rev(old(self).repo.commits@, old(self).revision@),
            r is Ok ==> final(self).fresh() && (final(self).repo.head matches Some(h) && h@ == old(
                self,
            ).revision@),
            r is Ok ==> final(self).repo.commits == old(self).repo.commits,
            final(self).revision == old(self).revision,
            final(self).location == old(self).location,
            final(self).database == old(self).database,
            r matches Err(e) ==> final(self).repo == old(self).repo && e@ == one_frame(
                ErrorClass::Internal,
                reset_missing_msg(),
            ),
    {
        if crate::submodule::contains_rev(&self.repo.commits, &self.revision) {
            let rev = self.revision.clone();
            self.repo.head = Some(rev);
            Ok(())
        } else {
            Err(GitError::internal(String::from_str("failed to find the object to reset to")))
        }
    }

    /// Synchronizes the submodules the current tree declares, recursively.
    pub fn update_submodules(&self, submodules: Vec<SubmoduleNode>) -> (r: Result<
        Vec<SubmoduleNode>,
        GitError,
    >)
        requires
            fresh_subtrees_synced(submodules@),
        ensures
            r is Ok <==> can_sync(submodules@),
            r matches Ok(out) ==> all_synced(out@) && same_decl(submodules@, out@),
            r matches Err(e) ==> e@.len() >= 1 && (forall|i: int|
                0 <= i < e@.len() ==> (#[trigger] e@[i]).0 is Internal) && e@ == sync_error(
                submodules@,
            ),
    {
        sync_forest(submodules)
    }
}

impl GitDatabase {
    /// Materializes `rev` at a destination, converging on a fresh working
    /// tree with synchronized submodules from any starting state:
    ///
    /// - an absent destination is cloned from this database's local path
    ///   and reset (never from the original remote URL);
    /// - a present but stale repository is fetched into and reset — it is
    ///   repaired, not discarded;
    /// - a fresh one is reused with no network action at all.
    ///
    /// `submodules` is the forest the tree at `rev` declares, with the
    /// observed local and upstream state of each entry; the synchronized
    /// forest is returned beside the checkout. The only failure is a
    /// submodule that cannot be brought to its recorded commit.
    pub fn copy_to<'a>(
        &'a self,
        rev: GitRevision,
        location: String,
        dest: DestState,
        submodules: Vec<SubmoduleNode>,
    ) -> (r: Result<(GitCheckout<'a>, Vec<SubmoduleNode>), GitError>)
        requires
            has_commit(&self.store, rev@),
            fresh_subtrees_synced(submodules@),
        ensures
            r is Ok <==> can_sync(submodules@),
            r matches Ok(p) ==> {
                &&& p.0.fresh()
                &&& p.0.revision == rev
                &&& p.0.location == location
                &&& p.0.database == self
                &&& all_synced(p.1@)
                &&& same_decl(submodules@, p.1@)
                &&& (dest matches DestState::Present(repo) ==> (plan_for(&dest, &rev)
                    is UseAsIs ==> p.0.repo.commits == repo.commits))
                &&& (dest matches DestState::Present(repo) ==> (plan_for(&dest, &rev)
                    is FetchThenReset ==> p.0.repo.commits@.len() == repo.commits@.len()
                    + self.store.commits@.len() && (forall|i: int|
                    0 <= i < repo.commits@.len() ==> p.0.repo.commits@[i]@
                        == #[trigger] repo.commits@[i]@)))
                &&& (dest is Absent ==> p.0.repo.commits@.len() == self.store.commits@.len())
            },
            r matches Err(e) ==> e@ == one_frame(ErrorClass::Internal, update_submodules_msg())
                + sync_error(submodules@),
    {
        let checkout = match dest {
            DestState::Present(repo) => {
                let mut c = GitCheckout::new(location, self, rev, repo);
                if !c.is_fresh() {
                    let ghost pre_len = c.repo.commits@.len();
                    match c.fetch() {
                        Ok(()) => {},
                        Err(e) => {
                            return Err(e);
                        },
                    }
                    proof {
                        let i = choose|i: int|
                            0 <= i < self.store.commits@.len()
                                && #[trigger] self.store.commits@[i]@ == rev@;
                        assert(c.repo.commits@[pre_len + i]@ == rev@);
                        assert(seq_has_rev(c.repo.commits@, c.revision@));
                    }
                    match c.reset() {
                        Ok(()) => {},
                        Err(e) => {
                            return Err(e);
                        },
                    }
                    proof {
                        assert(c.fresh());
                    }
                }
                c
            },
            DestState::Absent => match GitCheckout::clone_into(self, location, rev) {
                Ok(c) => c,
                Err(e) => {
                    return Err(e);
                },
            },
        };
        // Submodule synchronization always runs, even on the no-action
        // branch: submodule pointers can need work although the parent
        // commit did not change.
        let synced = match checkout.update_submodules(submodules) {
            Ok(s) => s,
            Err(e) => {
                return Err(
                    e.chain(
                        ErrorClass::Internal,
                        String::from_str("failed to update submodules"),
                    ),
                );
            },
        };
        Ok((checkout, synced))
    }
}

/// Law: materialization is idempotent. A successful materialization
/// leaves the destination fresh at the pinned revision, and materializing
/// the same revision there again takes the no-action branch: no fetch, no
/// reset.
pub proof fn lemma_copy_to_idempotent<'a>(c: GitCheckout<'a>)
    requires
        c.fresh(),
    ensures
        plan_for(&DestState::Present(c.repo), &c.revision) is UseAsIs,
{
}

/// Law: a destination that pre-exists as an unrelated, non-fresh
/// repository is repaired in place — fetched into and reset — rather than
/// failed on or re-cloned.
pub proof fn lemma_stale_destination_repaired(repo: RepoState, rev: GitRevision)
    requires
        !(repo.head matches Some(h) && h@ == rev@),
    ensures
        plan_for(&DestState::Present(repo), &rev) is FetchThenReset,
{
}

/// Law: a destination that does not exist at all is produced by cloning
/// the database's local path and resetting to the revision.
pub proof fn lemma_absent_destination_cloned(rev: GitRevision)
    ensures
        plan_for(&DestState::Absent, &rev) is CloneThenReset,
{
}

} // verus!
