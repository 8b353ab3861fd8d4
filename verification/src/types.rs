//! The vocabulary of a collection request: entity kinds, time axes, the
//! provider handle and the read-only schema mapping shared by every
//! concurrently scheduled fetch.

use vstd::prelude::*;

verus! {

/// A single output entity kind.
#[derive(Clone, Copy, Debug, PartialEq, Eq, Hash, Structural)]
pub enum Datatype {
    Blocks,
    Logs,
    Traces,
    Transactions,
    VmTraces,
}

/// A composite output kind whose collection spans several entity kinds.
#[derive(Clone, Copy, Debug, PartialEq, Eq, Hash, Structural)]
pub enum MultiDatatype {
    BlocksAndTransactions,
    StateDiffs,
}

/// A requested output kind: one entity, or a composite pass.
#[derive(Clone, Copy, Debug, PartialEq, Eq, Hash, Structural)]
pub enum MetaDatatype {
    Scalar(Datatype),
    Multi(MultiDatatype),
}

/// The axis along which a collection request is indexed.
#[derive(Clone, Copy, Debug, PartialEq, Eq, Hash, Structural)]
pub enum TimeDimension {
    Blocks,
    Transactions,
}

impl Datatype {
    /// The entity kind's name, for error reporting and output naming.
    pub fn name(&self) -> (r: &'static str)
        ensures
            r@ == self.spec_name(),
    {
        match self {
            Datatype::Blocks => "blocks",
            Datatype::Logs => "logs",
            Datatype::Traces => "traces",
            Datatype::Transactions => "transactions",
            Datatype::VmTraces => "vm_traces",
        }
    }

    pub open spec fn spec_name(&self) -> Seq<char> {
        match self {
            Datatype::Blocks => "blocks"@,
            Datatype::Logs => "logs"@,
            Datatype::Traces => "traces"@,
            Datatype::Transactions => "transactions"@,
            Datatype::VmTraces => "vm_traces"@,
        }
    }
}

/// Opaque handle to the remote chain-data provider. Cheap to duplicate once
/// per concurrent task; exposes no caller-visible mutable state, so duplicates
/// never diverge.
#[derive(Clone, Copy, Debug, PartialEq, Eq, Structural)]
pub struct Source {
    /// Identifies the provider endpoint this handle reaches.
    pub provider_id: u64,
    /// Concurrency budget the provider handle enforces internally.
    pub max_concurrent_requests: u64,
}

/// The target output schema for one entity kind. The core never reads or
/// validates schema contents; it only hands tables to collectors.
#[derive(Clone, Copy, Debug, PartialEq, Eq, Structural)]
pub struct Table {
    /// The entity kind this table is the output shape of.
    pub datatype: Datatype,
    /// How many output columns the table carries.
    pub n_columns: u64,
}

/// Immutable mapping from entity kind to its target table, supplied by the
/// caller and shared read-only across all concurrent work for one request.
#[derive(Clone, Copy, Debug, PartialEq, Eq)]
pub struct Schemas {
    pub blocks: Option<Table>,
    pub logs: Option<Table>,
    pub traces: Option<Table>,
    pub transactions: Option<Table>,
    pub vm_traces: Option<Table>,
}

impl Schemas {
    /// A mapping with no tables.
    pub fn empty() -> (r: Schemas)
        ensures
            forall|d: Datatype| r.spec_get(d) is None,
    {
        Schemas { blocks: None, logs: None, traces: None, transactions: None, vm_traces: None }
    }

    /// The table registered for `datatype`, if any.
    pub fn get(&self, datatype: Datatype) -> (r: Option<Table>)
        ensures
            r == self.spec_get(datatype),
    {
        match datatype {
            Datatype::Blocks => self.blocks,
            Datatype::Logs => self.logs,
            Datatype::Traces => self.traces,
            Datatype::Transactions => self.transactions,
            Datatype::VmTraces => self.vm_traces,
        }
    }

    pub open spec fn spec_get(&self, datatype: Datatype) -> Option<Table> {
        match datatype {
            Datatype::Blocks => self.blocks,
            Datatype::Logs => self.logs,
            Datatype::Traces => self.traces,
            Datatype::Transactions => self.transactions,
            Datatype::VmTraces => self.vm_traces,
        }
    }

    /// Registers `table` under `datatype`, replacing any previous entry.
    pub fn with(self, datatype: Datatype, table: Table) -> (r: Schemas)
        ensures
            r.spec_get(datatype) == Some(table),
            forall|d: Datatype| d != datatype ==> r.spec_get(d) == self.spec_get(d),
    {
        match datatype {
            Datatype::Blocks => Schemas { blocks: Some(table), ..self },
            Datatype::Logs => Schemas { logs: Some(table), ..self },
            Datatype::Traces => Schemas { traces: Some(table), ..self },
            Datatype::Transactions => Schemas { transactions: Some(table), ..self },
            Datatype::VmTraces => Schemas { vm_traces: Some(table), ..self },
        }
    }
}

} // verus!
