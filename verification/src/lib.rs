//! A git-backed source acquisition library.
//!
//! Given a remote repository URL and a symbolic reference (tag, branch, or
//! revision expression), this library resolves the reference to an exact
//! revision and materializes a reproducible working copy pinned to that
//! revision, including recursively synchronized submodules.
//!
//! The library is organized around a verified model of the git world:
//! object stores, reference tables, and working-tree states are held as
//! plain data, and every decision the acquisition process makes (which
//! credential to offer, when to clone versus fetch, when a checkout is
//! fresh, how to repair a stale one, which submodules need work) is a
//! verified function over that model. A thin driver performs the actual
//! network and filesystem operations that the decisions prescribe.
//!
//! The library defines no locking: concurrent operations that target the
//! same cache path or the same destination are the caller's to serialize,
//! while distinct paths are fully independent.

pub mod reference;
pub mod revision;
pub mod error;
pub mod remote;
pub mod database;
pub mod auth;
pub mod fetch;
pub mod submodule;
pub mod checkout;
pub mod encode;
