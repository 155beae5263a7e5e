//! The single-use handle correlating an issued call with its eventual
//! response. A handle is either already resolved (the server-local fast
//! path) or waits on a correlation token; it must be consumed exactly
//! once — dropping one unresolved abandons a reply that will never be
//! collected, so the type is marked `must_use`.

use vstd::prelude::*;

verus! {

/// One outstanding correlation between an issued call and its response.
#[must_use]
pub enum Pending<T> {
    /// The result is already known; no bus round trip is outstanding.
    Resolved(T),
    /// The response correlated with `token` has not arrived yet; the
    /// owner must drive the shared request-processing loop until it
    /// does.
    Waiting { token: u64 },
}

impl<T> Pending<T> {
    /// Whether the result is already known.
    pub fn is_resolved(&self) -> (r: bool)
        ensures
            r == (self is Resolved),
    {
        match self {
            Pending::Resolved(_) => true,
            Pending::Waiting { .. } => false,
        }
    }

    /// Consumes a resolved handle.
    pub fn take_resolved(self) -> (r: T)
        requires
            self is Resolved,
        ensures
            self == Pending::Resolved(r),
    {
        match self {
            Pending::Resolved(v) => v,
            Pending::Waiting { .. } => unreached(),
        }
    }

    /// The correlation token of a waiting handle.
    pub fn token(&self) -> (r: u64)
        requires
            self is Waiting,
        ensures
            *self == (Pending::Waiting::<T> { token: r }),
    {
        match self {
            Pending::Resolved(_) => unreached(),
            Pending::Waiting { token } => *token,
        }
    }
}

} // verus!
