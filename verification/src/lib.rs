//! Dispatch, fan-out and error-propagation core of a chain-data extraction
//! engine: routes a collection request by time axis and entity kind to the
//! collector that can serve it, and expands a partition of chain history into
//! independent fetch calls whose outcomes stream to a single consumer.

pub mod collect;
pub mod errors;
pub mod fetch;
pub mod partition;
pub mod results;
pub mod types;

pub use collect::Dispatch;
pub use collect::collect_by_block;
pub use collect::collect_by_transaction;
pub use collect::collect_partition;
pub use errors::CollectError;
pub use fetch::ResultChannel;
pub use fetch::fetch_partition;
pub use partition::ChunkDim;
pub use partition::Params;
pub use partition::Partition;
pub use results::CollectResult;
pub use results::finish_collect;
pub use types::Datatype;
pub use types::MetaDatatype;
pub use types::MultiDatatype;
pub use types::Schemas;
pub use types::Source;
pub use types::Table;
pub use types::TimeDimension;
