//! Serializable summaries for the lock-file interface.
//!
//! These plain records carry enough to re-open the same database or
//! checkout without re-resolving the reference: the remote's URL, the
//! absolute cache path, the destination path, and the pinned revision as
//! its hex string.

use vstd::prelude::*;
use crate::checkout::GitCheckout;
use crate::database::GitDatabase;
use crate::error::clone_string;
use crate::remote::GitRemote;
use crate::revision::hex_of;

verus! {

/// Serializable form of a remote: its URL as a string.
#[derive(Debug)]
pub struct EncodableGitRemote {
    pub url: String,
}

/// Serializable form of a database: its remote and its cache path.
#[derive(Debug)]
pub struct EncodableGitDatabase {
    pub remote: EncodableGitRemote,
    pub path: String,
}

/// Serializable form of a checkout: its database, its destination path,
/// and its revision rendered in hex.
#[derive(Debug)]
pub struct EncodableGitCheckout {
    pub database: EncodableGitDatabase,
    pub location: String,
    pub revision: String,
}

impl GitRemote {
    /// The serializable summary of this remote.
    pub fn encode(&self) -> (r: EncodableGitRemote)
        ensures
            r.url@ == self@,
    {
        EncodableGitRemote { url: clone_string(self.get_url()) }
    }
}

impl GitDatabase {
    /// The serializable summary of this database.
    pub fn encode(&self) -> (r: EncodableGitDatabase)
        ensures
            r.remote.url@ == self.remote@,
            r.path@ == self.path@,
    {
        EncodableGitDatabase { remote: self.remote.encode(), path: clone_string(&self.path) }
    }
}

impl<'a> GitCheckout<'a> {
    /// The serializable summary of this checkout. The revision is its hex
    /// rendering, which parses back to the same revision.
    pub fn encode(&self) -> (r: EncodableGitCheckout)
        ensures
            r.database.remote.url@ == self.database.remote@,
            r.database.path@ == self.database.path@,
            r.location@ == self.location@,
            r.revision@ == hex_of(self.revision@),
    {
        EncodableGitCheckout {
            database: self.database.encode(),
            location: clone_string(&self.location),
            revision: self.revision.to_hex(),
        }
    }
}

} // verus!
