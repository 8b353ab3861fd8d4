//! Routing a collection request to the collector that can serve it: the
//! time-dimension router and the two datatype strategy dispatchers, encoding
//! the closed capability matrix of (entity kind, time axis) pairs.
//!
//! The dispatchers decide; they never perform the fetch. A successful
//! dispatch names exactly which collector to invoke and hands the caller's
//! inputs through unchanged; every combination with no recognized collector
//! yields the unsupported-combination error, never an abort.

use vstd::prelude::*;
use crate::errors::CollectError;
use crate::partition::Partition;
use crate::types::Datatype;
use crate::types::MetaDatatype;
use crate::types::MultiDatatype;
use crate::types::Schemas;
use crate::types::Source;
use crate::types::TimeDimension;

verus! {

/// One fully-resolved delegation: invoke `datatype`'s collector indexed by
/// `time_dimension` on exactly these inputs.
#[derive(Clone, Debug, PartialEq, Eq)]
pub struct Dispatch {
    pub datatype: MetaDatatype,
    pub time_dimension: TimeDimension,
    pub partition: Partition,
    pub source: Source,
    pub schemas: Schemas,
}

/// Which requested kinds have a block-indexed collector.
pub open spec fn has_block_collector(datatype: MetaDatatype) -> bool {
    match datatype {
        MetaDatatype::Scalar(d) => match d {
            Datatype::Blocks => true,
            Datatype::Logs => true,
            Datatype::Traces => true,
            Datatype::Transactions => true,
            Datatype::VmTraces => false,
        },
        MetaDatatype::Multi(m) => match m {
            MultiDatatype::BlocksAndTransactions => true,
            MultiDatatype::StateDiffs => false,
        },
    }
}

/// Which requested kinds have a transaction-indexed collector. No composite
/// kind has one.
pub open spec fn has_transaction_collector(datatype: MetaDatatype) -> bool {
    match datatype {
        MetaDatatype::Scalar(d) => match d {
            Datatype::Blocks => true,
            Datatype::Logs => true,
            Datatype::Traces => true,
            Datatype::Transactions => true,
            Datatype::VmTraces => false,
        },
        MetaDatatype::Multi(_) => false,
    }
}

/// The full capability matrix: which requested kinds can be collected along
/// which time axis.
pub open spec fn has_collector(time_dimension: TimeDimension, datatype: MetaDatatype) -> bool {
    match time_dimension {
        TimeDimension::Blocks => has_block_collector(datatype),
        TimeDimension::Transactions => has_transaction_collector(datatype),
    }
}

/// What dispatching a request yields: the delegation for a supported pair,
/// the unsupported-combination error for every other.
pub open spec fn spec_dispatch(
    time_dimension: TimeDimension,
    datatype: MetaDatatype,
    partition: Partition,
    source: Source,
    schemas: Schemas,
) -> Result<Dispatch, CollectError> {
    if has_collector(time_dimension, datatype) {
        Ok(Dispatch { datatype, time_dimension, partition, source, schemas })
    } else {
        Err(CollectError::Unsupported(datatype, time_dimension))
    }
}

/// By-block datatype strategy dispatcher: selects the block-indexed collector
/// of the requested kind, or fails explicitly when it has none. Each legal
/// pairing is enumerated at this site; no request reaches an abort path.
pub fn collect_by_block(
    datatype: MetaDatatype,
    partition: Partition,
    source: Source,
    schemas: Schemas,
) -> (r: Result<Dispatch, CollectError>)
    ensures
        r == spec_dispatch(TimeDimension::Blocks, datatype, partition, source, schemas),
{
    let time_dimension = TimeDimension::Blocks;
    match datatype {
        MetaDatatype::Scalar(d) => match d {
            Datatype::Blocks => Ok(
                Dispatch { datatype, time_dimension, partition, source, schemas },
            ),
            Datatype::Logs => Ok(Dispatch { datatype, time_dimension, partition, source, schemas }),
            Datatype::Traces => Ok(
                Dispatch { datatype, time_dimension, partition, source, schemas },
            ),
            Datatype::Transactions => Ok(
                Dispatch { datatype, time_dimension, partition, source, schemas },
            ),
            Datatype::VmTraces => Err(CollectError::Unsupported(datatype, time_dimension)),
        },
        MetaDatatype::Multi(m) => match m {
            MultiDatatype::BlocksAndTransactions => Ok(
                Dispatch { datatype, time_dimension, partition, source, schemas },
            ),
            MultiDatatype::StateDiffs => Err(CollectError::Unsupported(datatype, time_dimension)),
        },
    }
}

/// By-transaction datatype strategy dispatcher: selects the
/// transaction-indexed collector of a scalar kind that has one; every
/// composite kind is categorically unsupported on this axis and fails before
/// any collector is named.
pub fn collect_by_transaction(
    datatype: MetaDatatype,
    partition: Partition,
    source: Source,
    schemas: Schemas,
) -> (r: Result<Dispatch, CollectError>)
    ensures
        r == spec_dispatch(TimeDimension::Transactions, datatype, partition, source, schemas),
{
    let time_dimension = TimeDimension::Transactions;
    match datatype {
        MetaDatatype::Scalar(d) => match d {
            Datatype::Blocks => Ok(
                Dispatch { datatype, time_dimension, partition, source, schemas },
            ),
            Datatype::Logs => Ok(Dispatch { datatype, time_dimension, partition, source, schemas }),
            Datatype::Traces => Ok(
                Dispatch { datatype, time_dimension, partition, source, schemas },
            ),
            Datatype::Transactions => Ok(
                Dispatch { datatype, time_dimension, partition, source, schemas },
            ),
            Datatype::VmTraces => Err(CollectError::Unsupported(datatype, time_dimension)),
        },
        MetaDatatype::Multi(m) => match m {
            MultiDatatype::BlocksAndTransactions => Err(
                CollectError::Unsupported(datatype, time_dimension),
            ),
            MultiDatatype::StateDiffs => Err(CollectError::Unsupported(datatype, time_dimension)),
        },
    }
}

/// Time-dimension router: forwards the request unchanged to the by-block or
/// by-transaction dispatcher; pure routing, no independent logic.
pub fn collect_partition(
    time_dimension: TimeDimension,
    datatype: MetaDatatype,
    partition: Partition,
    source: Source,
    schemas: Schemas,
) -> (r: Result<Dispatch, CollectError>)
    ensures
        r == spec_dispatch(time_dimension, datatype, partition, source, schemas),
{
    match time_dimension {
        TimeDimension::Blocks => collect_by_block(datatype, partition, source, schemas),
        TimeDimension::Transactions => collect_by_transaction(datatype, partition, source, schemas),
    }
}

/// Law: by-transaction collection of every composite kind yields the
/// unsupported-combination error — no composite variant names a collector on
/// that axis.
pub proof fn lemma_multi_transaction_unsupported(
    m: MultiDatatype,
    partition: Partition,
    source: Source,
    schemas: Schemas,
)
    ensures
        !has_collector(TimeDimension::Transactions, MetaDatatype::Multi(m)),
        spec_dispatch(
            TimeDimension::Transactions,
            MetaDatatype::Multi(m),
            partition,
            source,
            schemas,
        ) == Err::<Dispatch, CollectError>(
            CollectError::Unsupported(MetaDatatype::Multi(m), TimeDimension::Transactions),
        ),
{
}

/// Law: by-block dispatch of a supported kind is pass-through — it delegates
/// to exactly that kind's block-indexed collector with every input unchanged,
/// and adds nothing of its own.
pub proof fn lemma_block_dispatch_passthrough(
    datatype: MetaDatatype,
    partition: Partition,
    source: Source,
    schemas: Schemas,
)
    requires
        has_block_collector(datatype),
    ensures
        spec_dispatch(TimeDimension::Blocks, datatype, partition, source, schemas) == Ok::<
            Dispatch,
            CollectError,
        >(
            (Dispatch {
                datatype,
                time_dimension: TimeDimension::Blocks,
                partition,
                source,
                schemas,
            }),
        ),
{
}

} // verus!
