//! A remote repository, identified by its URL.

use vstd::prelude::*;
use vstd::string::StringExecFns;
use crate::database::{branches_view, resolve_model, tags_view, GitDatabase, ObjectStore};
use crate::error::{clone_string, one_frame, ErrorClass, GitError};
use crate::fetch::fetch;
use crate::reference::GitReference;
use crate::revision::GitRevision;

verus! {

/// A remote repository. Identity is the URL; the value owns no filesystem
/// state. It is the capability from which local databases are produced.
#[derive(Debug)]
pub struct GitRemote {
    url: String,
}

impl View for GitRemote {
    type V = Seq<char>;

    closed spec fn view(&self) -> Seq<char> {
        self.url@
    }
}

impl Clone for GitRemote {
    fn clone(&self) -> (r: Self)
        ensures
            r@ == self@,
    {
        GitRemote { url: clone_string(&self.url) }
    }
}

impl GitRemote {
    /// A remote for the given URL.
    pub fn new(url: String) -> (r: GitRemote)
        ensures
            r@ == url@,
    {
        GitRemote { url }
    }

    /// The URL this remote was created from.
    pub fn get_url(&self) -> (r: &String)
        ensures
            r@ == self@,
    {
        &self.url
    }

    /// Produces a database at a cache path, synchronized with the remote.
    /// `existing` is the valid object store found at the path, if any;
    /// `upstream` is what fetching the remote's URL currently provides.
    /// A valid store is fetched into; anything else is removed and
    /// replaced by a full bare clone. Either way the database's refs
    /// mirror the remote's and its object graph keeps everything it had.
    pub fn checkout(&self, into: String, existing: Option<ObjectStore>, upstream: &ObjectStore)
        -> (r: Result<GitDatabase, GitError>)
        ensures
            r is Ok,
            r matches Ok(db) ==> ((match existing {
                Some(s) => s.wf(),
                None => true,
            }) && upstream.wf() ==> db.store.wf()),
            r matches Ok(db) ==> {
                &&& db.remote@ == self@
                &&& db.path == into
                &&& tags_view(&db.store) == tags_view(upstream)
                &&& branches_view(&db.store) == branches_view(upstream)
                &&& match existing {
                    Some(s) => {
                        &&& db.store.commits@.len() == s.commits@.len() + upstream.commits@.len()
                        &&& forall|i: int|
                            0 <= i < s.commits@.len() ==> db.store.commits@[i]@
                                == #[trigger] s.commits@[i]@
                        &&& forall|i: int|
                            0 <= i < upstream.commits@.len() ==> db.store.commits@[s.commits@.len()
                                + i]@ == #[trigger] upstream.commits@[i]@
                        &&& db.store.revs@.len() == upstream.revs@.len() + s.revs@.len()
                        &&& forall|i: int|
                            0 <= i < upstream.revs@.len() ==> db.store.revs@[i]@
                                == #[trigger] upstream.revs@[i]@
                        &&& forall|i: int|
                            0 <= i < s.revs@.len() ==> db.store.revs@[upstream.revs@.len() + i]@
                                == #[trigger] s.revs@[i]@
                    },
                    None => {
                        &&& db.store.commits@.len() == upstream.commits@.len()
                        &&& forall|i: int|
                            0 <= i < upstream.commits@.len() ==> db.store.commits@[i]@
                                == #[trigger] upstream.commits@[i]@
                        &&& db.store.revs@.len() == upstream.revs@.len()
                        &&& forall|i: int|
                            0 <= i < upstream.revs@.len() ==> db.store.revs@[i]@
                                == #[trigger] upstream.revs@[i]@
                    },
                }
            },
    {
        let store = match existing {
            Some(s) => fetch(&s, upstream),
            None => {
                let empty = ObjectStore {
                    tags: Vec::new(),
                    branches: Vec::new(),
                    revs: Vec::new(),
                    commits: Vec::new(),
                };
                proof {
                    assert(empty.wf());
                }
                fetch(&empty, upstream)
            },
        };
        Ok(GitDatabase { remote: self.clone(), path: into, store })
    }

    /// Opens an existing database at a cache path without fetching; an
    /// absent or invalid store is an error. Reuses a previously populated
    /// cache without a network round trip.
    pub fn db_at(&self, db_path: String, existing: Option<ObjectStore>) -> (r: Result<
        GitDatabase,
        GitError,
    >)
        ensures
            r is Ok <==> existing is Some,
            r matches Ok(db) ==> (existing matches Some(s) && db.store == s) && db.path == db_path
                && db.remote@ == self@,
            r matches Err(e) ==> e@ == one_frame(ErrorClass::Internal, open_failed_msg(db_path@)),
    {
        match existing {
            Some(store) => Ok(GitDatabase { remote: self.clone(), path: db_path, store }),
            None => {
                let mut msg = String::from_str("failed to open repository at ");
                msg.append(db_path.as_str());
                Err(GitError::internal(msg))
            },
        }
    }

    /// Opens the database at a cache path and resolves a reference against
    /// it. Does not fetch, so the result can be stale if the cache is
    /// outdated: callers needing freshness call [`GitRemote::checkout`]
    /// first.
    pub fn rev_for(
        &self,
        db_path: String,
        existing: Option<ObjectStore>,
        reference: &GitReference,
    ) -> (r: Result<GitRevision, GitError>)
        ensures
            existing is None ==> (r matches Err(e) && e@ == one_frame(
                ErrorClass::Internal,
                open_failed_msg(db_path@),
            )),
            existing matches Some(s) ==> match r {
                Ok(rev) => resolve_model(&s, reference) == Result::<
                    Seq<u8>,
                    Seq<(ErrorClass, Seq<char>)>,
                >::Ok(rev@),
                Err(e) => resolve_model(&s, reference) == Result::<
                    Seq<u8>,
                    Seq<(ErrorClass, Seq<char>)>,
                >::Err(e@),
            },
    {
        let db = match self.db_at(db_path, existing) {
            Ok(db) => db,
            Err(e) => {
                return Err(e);
            },
        };
        db.rev_for(reference)
    }
}

/// Message of the internal error for a cache path holding no repository.
pub open spec fn open_failed_msg(path: Seq<char>) -> Seq<char> {
    "failed to open repository at "@ + path
}

} // verus!
