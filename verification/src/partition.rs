//! Partitions of chain history and their expansion into concrete parameter
//! sets, one per fetch call.

use vstd::prelude::*;

verus! {

/// A dimension along which a partition may be expanded into concrete
/// parameter sets.
#[derive(Clone, Copy, Debug, PartialEq, Eq, Structural)]
pub enum ChunkDim {
    BlockNumber,
    TransactionHash,
}

/// One concrete, fully-resolved parameter set for a single fetch call: a
/// block range and, once expanded along the transaction dimension, the one
/// transaction identity the call targets.
#[derive(Clone, Copy, Debug, PartialEq, Eq)]
pub struct Params {
    /// First block of the range, inclusive.
    pub block_start: u64,
    /// End of the block range, exclusive.
    pub block_end: u64,
    /// The transaction this call targets, when expanded by transaction.
    pub transaction: Option<u64>,
}

/// A self-describing unit of collection work: a contiguous block range and a
/// list of transaction identities. Read-only once constructed by the upstream
/// planner; duplicated cheaply across concurrent tasks.
#[derive(Clone, Debug, PartialEq, Eq)]
pub struct Partition {
    /// First block covered, inclusive.
    pub block_start: u64,
    /// End of the covered block range, exclusive.
    pub block_end: u64,
    /// Identities of the transactions covered.
    pub transactions: Vec<u64>,
}

/// The parameter set obtained from `p` by pinning the `i`-th block of its
/// range.
pub open spec fn block_singleton(p: Params, i: int) -> Params {
    Params {
        block_start: (p.block_start + i) as u64,
        block_end: (p.block_start + i + 1) as u64,
        transaction: p.transaction,
    }
}

/// The parameter set obtained from `p` by pinning the `i`-th covered
/// transaction.
pub open spec fn tx_singleton(p: Params, txs: Seq<u64>, i: int) -> Params {
    Params { block_start: p.block_start, block_end: p.block_end, transaction: Some(txs[i]) }
}

/// The parameter sets one set generates when split along `dim`: one per block
/// of its range, or one per covered transaction.
pub open spec fn split_one(p: Params, txs: Seq<u64>, dim: ChunkDim) -> Seq<Params> {
    match dim {
        ChunkDim::BlockNumber => Seq::new(
            if p.block_start <= p.block_end {
                (p.block_end - p.block_start) as nat
            } else {
                0
            },
            |i: int| block_singleton(p, i),
        ),
        ChunkDim::TransactionHash => Seq::new(txs.len(), |i: int| tx_singleton(p, txs, i)),
    }
}

/// Splitting every element of `ps` along `dim`, keeping order.
pub open spec fn expand_dim(ps: Seq<Params>, txs: Seq<u64>, dim: ChunkDim) -> Seq<Params>
    decreases ps.len(),
{
    if ps.len() == 0 {
        Seq::empty()
    } else {
        split_one(ps[0], txs, dim) + expand_dim(ps.drop_first(), txs, dim)
    }
}

/// Expanding along every dimension of `dims`, in order: dimensions named
/// earlier vary slower in the generated sequence.
pub open spec fn expand_dims(ps: Seq<Params>, txs: Seq<u64>, dims: Seq<ChunkDim>) -> Seq<
    Params,
>
    decreases dims.len(),
{
    if dims.len() == 0 {
        ps
    } else {
        expand_dims(expand_dim(ps, txs, dims[0]), txs, dims.drop_first())
    }
}

/// Splitting a sequence extended by one element appends that element's split.
proof fn lemma_expand_dim_push(ps: Seq<Params>, txs: Seq<u64>, dim: ChunkDim, p: Params)
    ensures
        expand_dim(ps.push(p), txs, dim) == expand_dim(ps, txs, dim) + split_one(p, txs, dim),
    decreases ps.len(),
{
    if ps.len() == 0 {
        assert(ps.push(p)[0] == p);
        assert(ps.push(p).drop_first() =~= Seq::<Params>::empty());
        assert(ps =~= Seq::<Params>::empty());
        assert(expand_dim(Seq::<Params>::empty(), txs, dim) =~= Seq::<Params>::empty());
        assert(expand_dim(ps.push(p), txs, dim) =~= expand_dim(ps, txs, dim) + split_one(
            p,
            txs,
            dim,
        ));
    } else {
        assert(ps.push(p)[0] == ps[0]);
        assert(ps.push(p).drop_first() =~= ps.drop_first().push(p));
        lemma_expand_dim_push(ps.drop_first(), txs, dim, p);
        assert(expand_dim(ps.push(p), txs, dim) =~= expand_dim(ps, txs, dim) + split_one(
            p,
            txs,
            dim,
        ));
    }
}

/// Expanding along a dimension list extended by one dimension splits the
/// already-expanded sequence along that last dimension.
proof fn lemma_expand_dims_push(ps: Seq<Params>, txs: Seq<u64>, dims: Seq<ChunkDim>, dim: ChunkDim)
    ensures
        expand_dims(ps, txs, dims.push(dim)) == expand_dim(expand_dims(ps, txs, dims), txs, dim),
    decreases dims.len(),
{
    if dims.len() == 0 {
        assert(dims.push(dim)[0] == dim);
        assert(dims.push(dim).drop_first() =~= Seq::<ChunkDim>::empty());
        assert(expand_dims(expand_dim(ps, txs, dim), txs, Seq::empty()) == expand_dim(
            ps,
            txs,
            dim,
        ));
        assert(expand_dims(ps, txs, Seq::empty()) == ps);
    } else {
        assert(dims.push(dim)[0] == dims[0]);
        assert(dims.push(dim).drop_first() =~= dims.drop_first().push(dim));
        lemma_expand_dims_push(expand_dim(ps, txs, dims[0]), txs, dims.drop_first(), dim);
    }
}

impl Partition {
    /// A partition is well formed when its block range is ordered.
    pub open spec fn wf(&self) -> bool {
        self.block_start <= self.block_end
    }

    /// The parameter set standing for the whole, unexpanded partition.
    pub open spec fn whole(&self) -> Params {
        Params { block_start: self.block_start, block_end: self.block_end, transaction: None }
    }

    /// The ordered sequence of parameter sets this partition generates for a
    /// chosen list of dimensions.
    pub open spec fn spec_param_sets(&self, dims: Seq<ChunkDim>) -> Seq<Params> {
        expand_dims(seq![self.whole()], self.transactions@, dims)
    }

    /// Expands this partition into an ordered sequence of concrete parameter
    /// sets, one per fetch call: the cross product of the selected
    /// dimensions, with dimensions selected earlier varying slower.
    /// Unselected dimensions stay fixed in every generated set.
    pub fn param_sets(&self, dims: &Vec<ChunkDim>) -> (r: Vec<Params>)
        requires
            self.wf(),
        ensures
            r@ == self.spec_param_sets(dims@),
    {
        let whole = Params {
            block_start: self.block_start,
            block_end: self.block_end,
            transaction: None,
        };
        let mut current: Vec<Params> = Vec::new();
        current.push(whole);
        let ghost txs = self.transactions@;
        let mut d: usize = 0;
        proof {
            assert(current@ =~= seq![self.whole()]);
            assert(dims@.subrange(0, 0) =~= Seq::<ChunkDim>::empty());
        }
        while d < dims.len()
            invariant
                d <= dims.len(),
                txs == self.transactions@,
                current@ == expand_dims(seq![self.whole()], txs, dims@.subrange(0, d as int)),
                forall|i: int|
                    0 <= i < current@.len() ==> (#[trigger] current@[i]).block_start
                        <= current@[i].block_end,
            decreases dims.len() - d,
        {
            let dim = dims[d];
            let mut next: Vec<Params> = Vec::new();
            let mut j: usize = 0;
            proof {
                assert(current@.subrange(0, 0) =~= Seq::<Params>::empty());
            }
            while j < current.len()
                invariant
                    j <= current.len(),
                    txs == self.transactions@,
                    next@ == expand_dim(current@.subrange(0, j as int), txs, dim),
                    forall|i: int|
                        0 <= i < current@.len() ==> (#[trigger] current@[i]).block_start
                            <= current@[i].block_end,
                    forall|i: int|
                        0 <= i < next@.len() ==> (#[trigger] next@[i]).block_start
                            <= next@[i].block_end,
                decreases current.len() - j,
            {
                let p = current[j];
                let ghost done = current@.subrange(0, j as int);
                proof {
                    assert(current@.subrange(0, j as int + 1) =~= done.push(p));
                    lemma_expand_dim_push(done, txs, dim, p);
                }
                match dim {
                    ChunkDim::BlockNumber => {
                        let mut b: u64 = p.block_start;
                        proof {
                            assert(Seq::new(0, |i: int| block_singleton(p, i))
                                =~= Seq::<Params>::empty());
                            assert(next@ =~= expand_dim(done, txs, dim) + Seq::new(
                                0,
                                |i: int| block_singleton(p, i),
                            ));
                        }
                        while b < p.block_end
                            invariant
                                p.block_start <= b <= p.block_end,
                                next@ == expand_dim(done, txs, dim) + Seq::new(
                                    (b - p.block_start) as nat,
                                    |i: int| block_singleton(p, i),
                                ),
                            decreases p.block_end - b,
                        {
                            next.push(Params { block_start: b, block_end: b + 1, transaction: p.transaction });
                            proof {
                                assert(Seq::new(
                                    (b + 1 - p.block_start) as nat,
                                    |i: int| block_singleton(p, i),
                                ) =~= Seq::new(
                                    (b - p.block_start) as nat,
                                    |i: int| block_singleton(p, i),
                                ).push(block_singleton(p, b - p.block_start)));
                            }
                            b = b + 1;
                        }
                        proof {
                            assert(Seq::new(
                                (b - p.block_start) as nat,
                                |i: int| block_singleton(p, i),
                            ) =~= split_one(p, txs, dim));
                        }
                    },
                    ChunkDim::TransactionHash => {
                        let mut t: usize = 0;
                        proof {
                            assert(Seq::new(0, |i: int| tx_singleton(p, txs, i))
                                =~= Seq::<Params>::empty());
                            assert(next@ =~= expand_dim(done, txs, dim) + Seq::new(
                                0,
                                |i: int| tx_singleton(p, txs, i),
                            ));
                        }
                        while t < self.transactions.len()
                            invariant
                                t <= self.transactions.len(),
                                txs == self.transactions@,
                                p.block_start <= p.block_end,
                                next@ == expand_dim(done, txs, dim) + Seq::new(
                                    t as nat,
                                    |i: int| tx_singleton(p, txs, i),
                                ),
                            decreases self.transactions.len() - t,
                        {
                            let tx = self.transactions[t];
                            next.push(Params {
                                block_start: p.block_start,
                                block_end: p.block_end,
                                transaction: Some(tx),
                            });
                            proof {
                                assert(Seq::new(
                                    t as nat + 1,
                                    |i: int| tx_singleton(p, txs, i),
                                ) =~= Seq::new(t as nat, |i: int| tx_singleton(p, txs, i)).push(
                                    tx_singleton(p, txs, t as int),
                                ));
                            }
                            t = t + 1;
                        }
                        proof {
                            assert(Seq::new(t as nat, |i: int| tx_singleton(p, txs, i))
                                =~= split_one(p, txs, dim));
                        }
                    },
                }
                j = j + 1;
            }
            proof {
                assert(current@.subrange(0, j as int) =~= current@);
                assert(dims@.subrange(0, d as int + 1) =~= dims@.subrange(0, d as int).push(dim));
                lemma_expand_dims_push(seq![self.whole()], txs, dims@.subrange(0, d as int), dim);
            }
            current = next;
            d = d + 1;
        }
        proof {
            assert(dims@.subrange(0, dims@.len() as int) =~= dims@);
        }
        current
    }
}

/// Law: expanding along the block dimension alone yields one parameter set
/// per covered block, in ascending order, each pinning exactly that block.
pub proof fn lemma_block_expansion(p: Partition)
    requires
        p.wf(),
    ensures
        p.spec_param_sets(seq![ChunkDim::BlockNumber]).len() == p.block_end - p.block_start,
        forall|i: int|
            0 <= i < p.block_end - p.block_start ==> p.spec_param_sets(
                seq![ChunkDim::BlockNumber],
            )[i] == block_singleton(p.whole(), i),
{
    let dims = seq![ChunkDim::BlockNumber];
    let start = seq![p.whole()];
    let txs = p.transactions@;
    assert(dims[0] == ChunkDim::BlockNumber);
    assert(dims.drop_first() =~= Seq::<ChunkDim>::empty());
    assert(start[0] == p.whole());
    assert(start.drop_first() =~= Seq::<Params>::empty());
    let once = expand_dim(start, txs, ChunkDim::BlockNumber);
    assert(expand_dim(Seq::<Params>::empty(), txs, ChunkDim::BlockNumber) =~= Seq::<
        Params,
    >::empty());
    assert(once =~= split_one(p.whole(), txs, ChunkDim::BlockNumber));
    assert(expand_dims(once, txs, Seq::<ChunkDim>::empty()) == once);
    assert(p.spec_param_sets(dims) == once);
}

/// Law: a partition whose block range is empty generates no parameter sets
/// when expanded along the block dimension.
pub proof fn lemma_empty_block_expansion(p: Partition)
    requires
        p.block_start == p.block_end,
    ensures
        p.spec_param_sets(seq![ChunkDim::BlockNumber]).len() == 0,
{
    lemma_block_expansion(p);
}

/// Law: expanding along the transaction dimension alone yields one parameter
/// set per covered transaction, in order, each pinning exactly that
/// transaction and keeping the whole block range.
pub proof fn lemma_transaction_expansion(p: Partition)
    ensures
        p.spec_param_sets(seq![ChunkDim::TransactionHash]).len() == p.transactions@.len(),
        forall|i: int|
            0 <= i < p.transactions@.len() ==> p.spec_param_sets(
                seq![ChunkDim::TransactionHash],
            )[i] == tx_singleton(p.whole(), p.transactions@, i),
{
    let dims = seq![ChunkDim::TransactionHash];
    let start = seq![p.whole()];
    let txs = p.transactions@;
    assert(dims[0] == ChunkDim::TransactionHash);
    assert(dims.drop_first() =~= Seq::<ChunkDim>::empty());
    assert(start[0] == p.whole());
    assert(start.drop_first() =~= Seq::<Params>::empty());
    let once = expand_dim(start, txs, ChunkDim::TransactionHash);
    assert(expand_dim(Seq::<Params>::empty(), txs, ChunkDim::TransactionHash) =~= Seq::<
        Params,
    >::empty());
    assert(once =~= split_one(p.whole(), txs, ChunkDim::TransactionHash));
    assert(expand_dims(once, txs, Seq::<ChunkDim>::empty()) == once);
    assert(p.spec_param_sets(dims) == once);
}

} // verus!
