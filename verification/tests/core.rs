use cryo_freeze::ChunkDim;
use cryo_freeze::CollectError;
use cryo_freeze::CollectResult;
use cryo_freeze::Datatype;
use cryo_freeze::MetaDatatype;
use cryo_freeze::MultiDatatype;
use cryo_freeze::Params;
use cryo_freeze::Partition;
use cryo_freeze::ResultChannel;
use cryo_freeze::Schemas;
use cryo_freeze::Source;
use cryo_freeze::Table;
use cryo_freeze::TimeDimension;
use cryo_freeze::collect_by_block;
use cryo_freeze::collect_by_transaction;
use cryo_freeze::collect_partition;
use cryo_freeze::fetch_partition;
use cryo_freeze::finish_collect;
use polars::frame::DataFrame;

fn sample_partition() -> Partition {
    Partition { block_start: 100, block_end: 103, transactions: vec![7, 8] }
}

fn sample_source() -> Source {
    Source { provider_id: 1, max_concurrent_requests: 4 }
}

fn sample_schemas() -> Schemas {
    Schemas::empty().with(Datatype::Blocks, Table { datatype: Datatype::Blocks, n_columns: 3 })
}

fn all_meta() -> [MetaDatatype; 7] {
    [
        MetaDatatype::Scalar(Datatype::Blocks),
        MetaDatatype::Scalar(Datatype::Logs),
        MetaDatatype::Scalar(Datatype::Traces),
        MetaDatatype::Scalar(Datatype::Transactions),
        MetaDatatype::Scalar(Datatype::VmTraces),
        MetaDatatype::Multi(MultiDatatype::BlocksAndTransactions),
        MetaDatatype::Multi(MultiDatatype::StateDiffs),
    ]
}

fn block_supported(meta: MetaDatatype) -> bool {
    !matches!(
        meta,
        MetaDatatype::Scalar(Datatype::VmTraces) | MetaDatatype::Multi(MultiDatatype::StateDiffs)
    )
}

fn transaction_supported(meta: MetaDatatype) -> bool {
    matches!(meta, MetaDatatype::Scalar(d) if d != Datatype::VmTraces)
}

#[test]
fn by_block_matrix_is_exhaustive() {
    for meta in all_meta() {
        let r = collect_by_block(meta, sample_partition(), sample_source(), sample_schemas());
        if block_supported(meta) {
            let d = r.expect("supported by block");
            assert_eq!(d.datatype, meta);
            assert_eq!(d.time_dimension, TimeDimension::Blocks);
            assert_eq!(d.partition, sample_partition());
            assert_eq!(d.source, sample_source());
            assert_eq!(d.schemas, sample_schemas());
        } else {
            assert_eq!(
                r,
                Err(CollectError::Unsupported(meta, TimeDimension::Blocks)),
                "unsupported by block must be an explicit error"
            );
        }
    }
}

#[test]
fn by_transaction_matrix_is_exhaustive() {
    for meta in all_meta() {
        let r = collect_by_transaction(meta, sample_partition(), sample_source(), sample_schemas());
        if transaction_supported(meta) {
            let d = r.expect("supported by transaction");
            assert_eq!(d.datatype, meta);
            assert_eq!(d.time_dimension, TimeDimension::Transactions);
        } else {
            assert_eq!(r, Err(CollectError::Unsupported(meta, TimeDimension::Transactions)));
        }
    }
}

#[test]
fn every_multi_by_transaction_is_unsupported() {
    for multi in [MultiDatatype::BlocksAndTransactions, MultiDatatype::StateDiffs] {
        let meta = MetaDatatype::Multi(multi);
        let r = collect_by_transaction(meta, sample_partition(), sample_source(), sample_schemas());
        let err = r.expect_err("composite kinds cannot collect by transaction");
        assert_eq!(err, CollectError::Unsupported(meta, TimeDimension::Transactions));
        assert_eq!(err.message(), "datatype cannot collect by transaction");
    }
}

#[test]
fn router_forwards_unchanged() {
    for meta in all_meta() {
        let by_block =
            collect_partition(TimeDimension::Blocks, meta, sample_partition(), sample_source(), sample_schemas());
        assert_eq!(
            by_block,
            collect_by_block(meta, sample_partition(), sample_source(), sample_schemas())
        );
        let by_tx = collect_partition(
            TimeDimension::Transactions,
            meta,
            sample_partition(),
            sample_source(),
            sample_schemas(),
        );
        assert_eq!(
            by_tx,
            collect_by_transaction(meta, sample_partition(), sample_source(), sample_schemas())
        );
    }
}

#[test]
fn block_dispatch_is_passthrough() {
    let meta = MetaDatatype::Scalar(Datatype::Blocks);
    let d = collect_by_block(meta, sample_partition(), sample_source(), sample_schemas())
        .expect("blocks collect by block");
    assert_eq!(d.datatype, meta);
    assert_eq!(d.partition, sample_partition());

    let mut produced: CollectResult<DataFrame> = CollectResult::new();
    produced.push(Datatype::Blocks, DataFrame::default());
    let out = finish_collect(Ok(produced)).expect("pass-through keeps success");
    assert_eq!(out.entries.len(), 1);
    assert_eq!(out.entries[0].0, Datatype::Blocks);
    assert_eq!(out.entries[0].1, DataFrame::default());

    let failed: Result<CollectResult<DataFrame>, CollectError> =
        Err(CollectError::Collect("node unreachable".to_string()));
    match finish_collect(failed) {
        Err(e) => assert_eq!(e.message(), "node unreachable"),
        Ok(_) => panic!("pass-through must keep the error"),
    }
}

#[test]
fn error_messages_identify_the_axis() {
    let by_tx =
        CollectError::Unsupported(MetaDatatype::Multi(MultiDatatype::StateDiffs), TimeDimension::Transactions);
    assert_eq!(by_tx.message(), "datatype cannot collect by transaction");
    let by_block =
        CollectError::Unsupported(MetaDatatype::Scalar(Datatype::VmTraces), TimeDimension::Blocks);
    assert_eq!(by_block.message(), "datatype cannot collect by block");
    let upstream = CollectError::Collect("rate limited".to_string());
    assert_eq!(upstream.message(), "rate limited");
}

#[test]
fn datatype_names() {
    assert_eq!(Datatype::Blocks.name(), "blocks");
    assert_eq!(Datatype::Logs.name(), "logs");
    assert_eq!(Datatype::Traces.name(), "traces");
    assert_eq!(Datatype::Transactions.name(), "transactions");
    assert_eq!(Datatype::VmTraces.name(), "vm_traces");
}

#[test]
fn schemas_lookup() {
    let table = Table { datatype: Datatype::Logs, n_columns: 5 };
    let schemas = Schemas::empty().with(Datatype::Logs, table);
    assert_eq!(schemas.get(Datatype::Logs), Some(table));
    assert_eq!(schemas.get(Datatype::Blocks), None);
}

#[test]
fn param_sets_by_block() {
    let p = sample_partition();
    let sets = p.param_sets(&vec![ChunkDim::BlockNumber]);
    assert_eq!(sets.len(), 3);
    for (i, params) in sets.iter().enumerate() {
        assert_eq!(params.block_start, 100 + i as u64);
        assert_eq!(params.block_end, 101 + i as u64);
        assert_eq!(params.transaction, None);
    }
}

#[test]
fn param_sets_by_transaction() {
    let p = sample_partition();
    let sets = p.param_sets(&vec![ChunkDim::TransactionHash]);
    assert_eq!(sets.len(), 2);
    assert_eq!(sets[0], Params { block_start: 100, block_end: 103, transaction: Some(7) });
    assert_eq!(sets[1], Params { block_start: 100, block_end: 103, transaction: Some(8) });
}

#[test]
fn param_sets_cross_product() {
    let p = Partition { block_start: 0, block_end: 2, transactions: vec![5, 6] };
    let sets = p.param_sets(&vec![ChunkDim::BlockNumber, ChunkDim::TransactionHash]);
    let expected = [(0, 5), (0, 6), (1, 5), (1, 6)];
    assert_eq!(sets.len(), expected.len());
    for (params, (block, tx)) in sets.iter().zip(expected) {
        assert_eq!(params.block_start, block);
        assert_eq!(params.block_end, block + 1);
        assert_eq!(params.transaction, Some(tx));
    }
}

#[test]
fn param_sets_without_dimensions_is_the_whole_partition() {
    let p = sample_partition();
    let sets = p.param_sets(&Vec::new());
    assert_eq!(sets.len(), 1);
    assert_eq!(sets[0], Params { block_start: 100, block_end: 103, transaction: None });
}

#[test]
fn fanout_delivers_every_success() {
    let mut channel: ResultChannel<u64> = ResultChannel::new();
    assert_eq!(channel.len(), 0);
    let status = fetch_partition(
        |params: Params, _source: Source, _schemas: Schemas| Ok(params.block_start),
        sample_partition(),
        sample_source(),
        sample_schemas(),
        vec![ChunkDim::BlockNumber],
        &mut channel,
    );
    assert_eq!(status, Ok(()));
    assert_eq!(channel.len(), 3);
    let messages = channel.into_messages();
    assert_eq!(messages, vec![Ok(100), Ok(101), Ok(102)]);
}

#[test]
fn fanout_covers_exactly_the_block_range() {
    let mut channel: ResultChannel<u64> = ResultChannel::new();
    let status = fetch_partition(
        |params: Params, _source: Source, _schemas: Schemas| Ok(params.block_start),
        Partition { block_start: 100, block_end: 103, transactions: Vec::new() },
        sample_source(),
        sample_schemas(),
        vec![ChunkDim::BlockNumber],
        &mut channel,
    );
    assert_eq!(status, Ok(()));
    let mut blocks: Vec<u64> =
        channel.into_messages().into_iter().map(|m| m.expect("all fetches succeed")).collect();
    blocks.sort();
    assert_eq!(blocks, vec![100, 101, 102]);
}

#[test]
fn fanout_isolates_a_single_failure() {
    let mut channel: ResultChannel<u64> = ResultChannel::new();
    let status = fetch_partition(
        |params: Params, _source: Source, _schemas: Schemas| {
            if params.block_start == 101 {
                Err(CollectError::Collect("transient fetch failure".to_string()))
            } else {
                Ok(params.block_start)
            }
        },
        sample_partition(),
        sample_source(),
        sample_schemas(),
        vec![ChunkDim::BlockNumber],
        &mut channel,
    );
    assert_eq!(status, Ok(()), "one failing fetch never fails the executor");
    let messages = channel.into_messages();
    assert_eq!(messages.len(), 3);
    assert_eq!(messages[0], Ok(100));
    assert_eq!(messages[1], Err(CollectError::Collect("transient fetch failure".to_string())));
    assert_eq!(messages[2], Ok(102));
}

#[test]
fn fanout_of_empty_partition_delivers_nothing() {
    let mut channel: ResultChannel<u64> = ResultChannel::new();
    let status = fetch_partition(
        |params: Params, _source: Source, _schemas: Schemas| Ok(params.block_start),
        Partition { block_start: 5, block_end: 5, transactions: Vec::new() },
        sample_source(),
        sample_schemas(),
        vec![ChunkDim::BlockNumber],
        &mut channel,
    );
    assert_eq!(status, Ok(()), "an empty fan-out still schedules successfully");
    assert!(channel.into_messages().is_empty());
}

#[test]
fn fanout_carries_tabular_results() {
    let mut channel: ResultChannel<CollectResult<DataFrame>> = ResultChannel::new();
    let status = fetch_partition(
        |_params: Params, _source: Source, _schemas: Schemas| {
            let mut result: CollectResult<DataFrame> = CollectResult::new();
            result.push(Datatype::Blocks, DataFrame::default());
            Ok(result)
        },
        Partition { block_start: 0, block_end: 2, transactions: Vec::new() },
        sample_source(),
        sample_schemas(),
        vec![ChunkDim::BlockNumber],
        &mut channel,
    );
    assert_eq!(status, Ok(()));
    let messages = channel.into_messages();
    assert_eq!(messages.len(), 2);
    for message in messages {
        let result = message.expect("collector succeeded");
        assert_eq!(result.len(), 1);
        assert_eq!(result.entries[0].0, Datatype::Blocks);
        assert_eq!(result.entries[0].1, DataFrame::default());
    }
}
