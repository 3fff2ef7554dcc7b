//! Filters: pluggable predicates that may drop a datagram before the relay
//! forwards it.

use vstd::prelude::*;

use crate::datagram::Datagram;

pub mod drop_chance;

verus! {

/// A configuration the relay refuses at startup.
#[derive(Clone, Copy, PartialEq, Eq, Structural, Debug)]
pub enum ConfigError {
    /// The drop chance lies outside the unit interval.
    DropChanceOutOfRange,
}

/// A predicate over a datagram: pass it through unchanged, or drop it.
///
/// `apply` may be randomized, so no more is promised of a single call than
/// that a passed datagram is the input itself; a filter that can never drop
/// must pass, and one that always drops must drop.
pub trait Filter: Sized {
    /// Whether this filter passes every datagram.
    spec fn passes_all(&self) -> bool;

    /// Whether this filter drops every datagram.
    spec fn drops_all(&self) -> bool;

    /// Consults the filter once for one outbound datagram.
    fn apply(&self, input: Datagram) -> (r: Option<Datagram>)
        ensures
            r matches Some(d) ==> d == input,
            self.passes_all() ==> r == Some(input),
            self.drops_all() ==> r is None,
    ;
}

} // verus!
