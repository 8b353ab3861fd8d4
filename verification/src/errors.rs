//! The shared error taxonomy: every layer of the dispatch and fan-out core
//! reports failure through `CollectError`.

use vstd::prelude::*;
use crate::types::MetaDatatype;
use crate::types::TimeDimension;

verus! {

/// Why a collection request failed.
#[derive(Clone, Debug, PartialEq, Eq)]
pub enum CollectError {
    /// The requested (datatype, time axis) pair has no collector: the
    /// capability matrix rejects it before any collector is invoked.
    Unsupported(MetaDatatype, TimeDimension),
    /// An error surfaced unchanged from a collector or fetch call.
    Collect(String),
}

impl CollectError {
    /// A human-readable description of the failure. An unsupported
    /// combination names the time axis it was refused on; an upstream error
    /// carries the collector's own message unchanged.
    pub fn message(&self) -> (r: &str)
        ensures
            r@ == self.spec_message(),
    {
        match self {
            CollectError::Unsupported(_, TimeDimension::Blocks) => {
                "datatype cannot collect by block"
            },
            CollectError::Unsupported(_, TimeDimension::Transactions) => {
                "datatype cannot collect by transaction"
            },
            CollectError::Collect(s) => s.as_str(),
        }
    }

    pub open spec fn spec_message(&self) -> Seq<char> {
        match self {
            CollectError::Unsupported(_, TimeDimension::Blocks) => {
                "datatype cannot collect by block"@
            },
            CollectError::Unsupported(_, TimeDimension::Transactions) => {
                "datatype cannot collect by transaction"@
            },
            CollectError::Collect(s) => s@,
        }
    }
}

} // verus!
