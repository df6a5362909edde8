//! Symbolic references into a git repository.

use vstd::prelude::*;

verus! {

/// A symbolic reference supplied by the caller: a tag name, a branch name,
/// or an arbitrary single-object revision expression (a short or long hash,
/// `HEAD`, relative syntax, and so on).
///
/// Resolution logic matches exhaustively on this closed sum type; there is
/// no default or fallback case.
pub enum GitReference {
    /// An (effectively immutable) tag name.
    Tag(String),
    /// A (mutable) branch name.
    Branch(String),
    /// A revision expression evaluated directly against the object store.
    Rev(String),
}

impl GitReference {
    /// The name or expression carried by this reference.
    pub fn name(&self) -> (r: &String)
        ensures
            r@ == self.name_spec(),
    {
        match self {
            GitReference::Tag(s) => s,
            GitReference::Branch(s) => s,
            GitReference::Rev(s) => s,
        }
    }

    /// The name or expression carried by a reference, as a sequence of
    /// characters.
    pub open spec fn name_spec(&self) -> Seq<char> {
        match self {
            GitReference::Tag(s) => s@,
            GitReference::Branch(s) => s@,
            GitReference::Rev(s) => s@,
        }
    }
}

} // verus!
