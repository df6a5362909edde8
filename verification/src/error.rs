//! Structured errors: a cause chain of context frames, each classified as
//! user-facing or internal.

use vstd::prelude::*;
use vstd::string::StringExecFns;

verus! {

/// How a context frame is meant to be consumed: shown to the end user, or
/// logged for diagnostics.
#[derive(Clone, Copy, PartialEq, Eq, Structural, Debug)]
pub enum ErrorClass {
    /// A human-readable message naming the offending tag, branch, URL or
    /// path, appropriate to show directly.
    UserFacing,
    /// A short phrase describing which operation was being attempted,
    /// wrapping a lower-level failure; intended for diagnostic logs.
    Internal,
}

/// One context frame of an error chain.
#[derive(Debug)]
pub struct ErrorFrame {
    pub class: ErrorClass,
    pub message: String,
}

impl View for ErrorFrame {
    type V = (ErrorClass, Seq<char>);

    open spec fn view(&self) -> (ErrorClass, Seq<char>) {
        (self.class, self.message@)
    }
}

/// An error produced while acquiring a source: a chain of context frames,
/// outermost first, ending at the failure that started the chain.
#[derive(Debug)]
pub struct GitError {
    pub frames: Vec<ErrorFrame>,
}

impl View for GitError {
    type V = Seq<(ErrorClass, Seq<char>)>;

    open spec fn view(&self) -> Seq<(ErrorClass, Seq<char>)> {
        self.frames@.map_values(|f: ErrorFrame| f@)
    }
}

/// A single-frame error chain with the given classification.
pub open spec fn one_frame(class: ErrorClass, message: Seq<char>) -> Seq<(ErrorClass, Seq<char>)> {
    seq![(class, message)]
}

impl GitError {
    /// A fresh user-facing error.
    pub fn human(message: String) -> (r: GitError)
        ensures
            r@ == one_frame(ErrorClass::UserFacing, message@),
    {
        let e = GitError {
            frames: vec![ErrorFrame { class: ErrorClass::UserFacing, message }],
        };
        proof {
            assert(e@ =~= one_frame(ErrorClass::UserFacing, e.frames@[0].message@));
        }
        e
    }

    /// A fresh internal error.
    pub fn internal(message: String) -> (r: GitError)
        ensures
            r@ == one_frame(ErrorClass::Internal, message@),
    {
        let e = GitError {
            frames: vec![ErrorFrame { class: ErrorClass::Internal, message }],
        };
        proof {
            assert(e@ =~= one_frame(ErrorClass::Internal, e.frames@[0].message@));
        }
        e
    }

    /// Wraps this error in one more frame of context describing the
    /// enclosing operation; the new frame becomes the outermost one.
    pub fn chain(self, class: ErrorClass, message: String) -> (r: GitError)
        ensures
            r@ == one_frame(class, message@) + self@,
    {
        let ghost old_view = self@;
        let mut frames = self.frames;
        frames.insert(0, ErrorFrame { class, message });
        let e = GitError { frames };
        proof {
            assert(e@ =~= one_frame(class, e.frames@[0].message@) + old_view);
        }
        e
    }

    /// The messages of the user-facing frames, outermost first: the chain
    /// to render for display, with internal frames left to the logs.
    pub fn user_facing_messages(&self) -> (r: Vec<String>)
        ensures
            r@.map_values(|m: String| m@) == user_facing_of(self@),
    {
        let mut out: Vec<String> = Vec::new();
        let mut i: usize = 0;
        while i < self.frames.len()
            invariant
                i <= self.frames.len(),
                out@.map_values(|m: String| m@) == user_facing_of(
                    self.frames@.map_values(|f: ErrorFrame| f@).take(i as int),
                ),
            decreases self.frames.len() - i,
        {
            let ghost prefix = self.frames@.map_values(|f: ErrorFrame| f@).take(i as int);
            if matches!(self.frames[i].class, ErrorClass::UserFacing) {
                let msg = clone_string(&self.frames[i].message);
                out.push(msg);
            }
            i = i + 1;
            proof {
                let next = self.frames@.map_values(|f: ErrorFrame| f@).take(i as int);
                assert(next.drop_last() =~= prefix);
                assert(next.last() == self.frames@[i - 1]@);
                lemma_user_facing_push(prefix, next.last());
                assert(out@.map_values(|m: String| m@) =~= user_facing_of(next));
            }
        }
        proof {
            assert(self.frames@.map_values(|f: ErrorFrame| f@).take(self.frames@.len() as int)
                =~= self@);
        }
        out
    }
}

/// The messages of the user-facing frames of a chain, in order.
pub open spec fn user_facing_of(frames: Seq<(ErrorClass, Seq<char>)>) -> Seq<Seq<char>>
    decreases frames.len(),
{
    if frames.len() == 0 {
        Seq::<Seq<char>>::empty()
    } else {
        let rest = user_facing_of(frames.drop_last());
        if frames.last().0 is UserFacing {
            rest.push(frames.last().1)
        } else {
            rest
        }
    }
}

/// Unfolding `user_facing_of` one frame at a time.
proof fn lemma_user_facing_push(frames: Seq<(ErrorClass, Seq<char>)>, f: (ErrorClass, Seq<char>))
    ensures
        user_facing_of(frames.push(f)) == if f.0 is UserFacing {
            user_facing_of(frames).push(f.1)
        } else {
            user_facing_of(frames)
        },
{
    assert(frames.push(f).drop_last() =~= frames);
    assert(frames.push(f).last() == f);
}

/// Character-for-character copy of a string.
pub fn clone_string(s: &String) -> (r: String)
    ensures
        r@ == s@,
{
    let mut out = String::new();
    out.append(s.as_str());
    out
}

/// One sequence occurs inside another.
pub open spec fn contains_seq(haystack: Seq<char>, needle: Seq<char>) -> bool {
    exists|i: int|
        0 <= i && i + needle.len() <= haystack.len() && #[trigger] haystack.subrange(
            i,
            i + needle.len(),
        ) == needle
}

/// A sequence built as `prefix + name + suffix` contains `name`.
pub proof fn lemma_concat_contains(prefix: Seq<char>, name: Seq<char>, suffix: Seq<char>)
    ensures
        contains_seq(prefix + name + suffix, name),
{
    let msg = prefix + name + suffix;
    let i = prefix.len() as int;
    assert(msg.subrange(i, i + name.len()) =~= name);
}

} // verus!
