//! The partition fan-out executor: one partition becomes many independent
//! fetch calls whose outcomes all stream through a single channel to one
//! consumer.
//!
//! All status information of the scheduled work flows through the channel;
//! the executor's own result says only that every unit of work was accepted
//! and delivered, never that any fetch succeeded. One failing fetch is one
//! error message among the other outcomes: it neither cancels nor masks its
//! siblings, and no aggregation happens here — that is the consumer's call.

use vstd::prelude::*;
use crate::errors::CollectError;
use crate::partition::ChunkDim;
use crate::partition::Params;
use crate::partition::Partition;
use crate::types::Schemas;
use crate::types::Source;

verus! {

/// The consumer's view of a fan-out: every message delivered on the channel,
/// in arrival order. Once the executor returns, no further message arrives —
/// the completion signal of a drained fan-out.
pub struct ResultChannel<T> {
    messages: Vec<Result<T, CollectError>>,
}

impl<T> View for ResultChannel<T> {
    type V = Seq<Result<T, CollectError>>;

    closed spec fn view(&self) -> Seq<Result<T, CollectError>> {
        self.messages@
    }
}

impl<T> ResultChannel<T> {
    /// A channel on which nothing has been delivered yet.
    pub fn new() -> (c: ResultChannel<T>)
        ensures
            c@ == Seq::<Result<T, CollectError>>::empty(),
    {
        ResultChannel { messages: Vec::new() }
    }

    /// Delivers one message.
    fn send(&mut self, message: Result<T, CollectError>)
        ensures
            final(self)@ == old(self)@.push(message),
    {
        self.messages.push(message);
    }

    /// How many messages have been delivered.
    pub fn len(&self) -> (r: usize)
        ensures
            r == self@.len(),
    {
        self.messages.len()
    }

    /// The delivered messages, in arrival order, consuming the channel.
    pub fn into_messages(self) -> (r: Vec<Result<T, CollectError>>)
        ensures
            r@ == self@,
    {
        self.messages
    }
}

/// Partition fan-out executor: expands `partition` along `param_dims` into
/// concrete parameter sets, runs the fetch function once per set — each unit
/// of work holding its own duplicate of the source handle and the schema
/// mapping — and delivers every outcome on the channel: exactly one message
/// per generated set, failures delivered like successes.
///
/// The executor's own success says only that every unit of work was run and
/// its outcome delivered; it never reflects whether any fetch succeeded.
pub fn fetch_partition<T, F: Fn(Params, Source, Schemas) -> Result<T, CollectError>>(
    f_request: F,
    partition: Partition,
    source: Source,
    schemas: Schemas,
    param_dims: Vec<ChunkDim>,
    sender: &mut ResultChannel<T>,
) -> (r: Result<(), CollectError>)
    requires
        partition.wf(),
        forall|i: int|
            0 <= i < partition.spec_param_sets(param_dims@).len() ==> call_requires(
                f_request,
                ((#[trigger] partition.spec_param_sets(param_dims@)[i]), source, schemas),
            ),
    ensures
        r is Ok,
        final(sender)@.len() == old(sender)@.len() + partition.spec_param_sets(
            param_dims@,
        ).len(),
        forall|i: int| 0 <= i < old(sender)@.len() ==> final(sender)@[i] == old(sender)@[i],
        forall|i: int|
            old(sender)@.len() <= i < final(sender)@.len() ==> call_ensures(
                f_request,
                (
                    partition.spec_param_sets(param_dims@)[i - old(sender)@.len()],
                    source,
                    schemas,
                ),
                #[trigger] final(sender)@[i],
            ),
{
    let params = partition.param_sets(&param_dims);
    let n = params.len();
    let mut j: usize = 0;
    while j < n
        invariant
            n == params@.len(),
            params@ == partition.spec_param_sets(param_dims@),
            j <= n,
            forall|i: int|
                0 <= i < n ==> call_requires(
                    f_request,
                    ((#[trigger] params@[i]), source, schemas),
                ),
            sender@.len() == old(sender)@.len() + j,
            forall|i: int| 0 <= i < old(sender)@.len() ==> sender@[i] == old(sender)@[i],
            forall|i: int|
                old(sender)@.len() <= i < sender@.len() ==> call_ensures(
                    f_request,
                    (params@[i - old(sender)@.len()], source, schemas),
                    #[trigger] sender@[i],
                ),
        decreases n - j,
    {
        let p = params[j];
        let task_source = source;
        let task_schemas = schemas;
        let outcome = f_request(p, task_source, task_schemas);
        sender.send(outcome);
        j = j + 1;
    }
    Ok(())
}

/// Law: when every outcome the fetch function can produce for this source and
/// schema mapping is a success, every message the fan-out delivered is a
/// success — k generated parameter sets yield k success messages.
pub proof fn lemma_fanout_all_successes<
    T,
    F: Fn(Params, Source, Schemas) -> Result<T, CollectError>,
>(
    f_request: F,
    partition: Partition,
    source: Source,
    schemas: Schemas,
    param_dims: Seq<ChunkDim>,
    before: Seq<Result<T, CollectError>>,
    after: Seq<Result<T, CollectError>>,
)
    requires
        after.len() == before.len() + partition.spec_param_sets(param_dims).len(),
        forall|i: int|
            before.len() <= i < after.len() ==> call_ensures(
                f_request,
                (partition.spec_param_sets(param_dims)[i - before.len()], source, schemas),
                #[trigger] after[i],
            ),
        forall|p: Params, out: Result<T, CollectError>|
            call_ensures(f_request, (p, source, schemas), out) ==> out is Ok,
    ensures
        forall|i: int| before.len() <= i < after.len() ==> (#[trigger] after[i]) is Ok,
{
}

/// Law: one failing parameter set never cancels or masks its siblings — when
/// the fetch function can fail only on one distinguished set, every message
/// delivered for the other sets is a success.
pub proof fn lemma_fanout_isolated_failure<
    T,
    F: Fn(Params, Source, Schemas) -> Result<T, CollectError>,
>(
    f_request: F,
    partition: Partition,
    source: Source,
    schemas: Schemas,
    param_dims: Seq<ChunkDim>,
    before: Seq<Result<T, CollectError>>,
    after: Seq<Result<T, CollectError>>,
    failing: Params,
)
    requires
        after.len() == before.len() + partition.spec_param_sets(param_dims).len(),
        forall|i: int|
            before.len() <= i < after.len() ==> call_ensures(
                f_request,
                (partition.spec_param_sets(param_dims)[i - before.len()], source, schemas),
                #[trigger] after[i],
            ),
        forall|p: Params, out: Result<T, CollectError>|
            p != failing && call_ensures(f_request, (p, source, schemas), out) ==> out is Ok,
    ensures
        forall|i: int|
            before.len() <= i < after.len() && partition.spec_param_sets(param_dims)[i
                - before.len()] != failing ==> (#[trigger] after[i]) is Ok,
{
}

/// Law: a partition that generates no parameter sets delivers nothing — the
/// channel after the fan-out holds exactly the messages it held before.
pub proof fn lemma_fanout_empty<T>(
    partition: Partition,
    param_dims: Seq<ChunkDim>,
    before: Seq<Result<T, CollectError>>,
    after: Seq<Result<T, CollectError>>,
)
    requires
        partition.spec_param_sets(param_dims).len() == 0,
        after.len() == before.len() + partition.spec_param_sets(param_dims).len(),
        forall|i: int| 0 <= i < before.len() ==> after[i] == before[i],
    ensures
        after == before,
{
    assert(after =~= before);
}

} // verus!
