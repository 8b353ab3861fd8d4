//! Collected output: the mapping from entity kind to its tabular result, and
//! the pass-through completion of a delegated collection.
//!
//! The core never reads a tabular result; it only routes and forwards them.
//! The frame type is therefore a parameter, instantiated by callers with
//! their tabular payload.

use vstd::prelude::*;
use crate::errors::CollectError;
use crate::types::Datatype;

verus! {

/// What one collection pass produced: one tabular result per entity kind the
/// request yielded. A scalar request yields exactly one entry; a composite
/// request one entry per constituent kind — a discipline of the collectors,
/// which this core passes through unchanged.
pub struct CollectResult<F> {
    /// The produced tables, keyed by entity kind.
    pub entries: Vec<(Datatype, F)>,
}

impl<F> CollectResult<F> {
    /// A result with no entries.
    pub fn new() -> (r: CollectResult<F>)
        ensures
            r.entries@.len() == 0,
    {
        CollectResult { entries: Vec::new() }
    }

    /// Adds the table collected for one entity kind.
    pub fn push(&mut self, datatype: Datatype, frame: F)
        ensures
            final(self).entries@.len() == old(self).entries@.len() + 1,
            final(self).entries@.last().0 == datatype,
            forall|i: int|
                0 <= i < old(self).entries@.len() ==> final(self).entries@[i] == old(
                    self,
                ).entries@[i],
    {
        self.entries.push((datatype, frame));
    }

    /// How many entity kinds this result covers.
    pub fn len(&self) -> (r: usize)
        ensures
            r == self.entries@.len(),
    {
        self.entries.len()
    }
}

/// Returns a delegated collector's outcome unchanged: the dispatch layer adds
/// no retry or recovery behavior of its own, and never masks an upstream
/// error.
pub fn finish_collect<F>(outcome: Result<CollectResult<F>, CollectError>) -> (r: Result<
    CollectResult<F>,
    CollectError,
>)
    ensures
        r == outcome,
{
    outcome
}

} // verus!
