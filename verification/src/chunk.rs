use vstd::prelude::*;

use crate::batch::{batch_views, spec_build, Batch, BatchView};
use crate::batch::build;
use crate::errors::ServiceError;

verus! {

/// What the chunker produces: batches of `min(remaining, max)` rows, head
/// first, until no rows remain. Empty when the bound is zero (an invalid
/// configuration, rejected before this is ever used) or the total is zero.
pub open spec fn chunk_batches(n_cols: nat, total: nat, max: nat) -> Seq<BatchView>
    decreases total,
{
    if max == 0 || total == 0 {
        Seq::empty()
    } else {
        let head: nat = if total < max {
            total
        } else {
            max
        };
        seq![spec_build(n_cols, head)] + chunk_batches(n_cols, (total - head) as nat, max)
    }
}

/// The total number of rows across a batch sequence.
pub open spec fn total_rows(bs: Seq<BatchView>) -> nat
    decreases bs.len(),
{
    if bs.len() == 0 {
        0
    } else {
        bs[0].rows + total_rows(bs.drop_first())
    }
}

/// Law: for any total and any positive bound, the chunker's batch row counts
/// sum exactly to the total, every batch stays within the bound (and is a
/// built batch of its row count), and exactly `ceil(total / max)` batches
/// come out — zero batches exactly when the total is zero.
pub proof fn lemma_chunk_bounds(n_cols: nat, total: nat, max: nat)
    requires
        max >= 1,
    ensures
        total_rows(chunk_batches(n_cols, total, max)) == total,
        forall|i: int|
            0 <= i < chunk_batches(n_cols, total, max).len() ==> {
                let b = #[trigger] chunk_batches(n_cols, total, max)[i];
                1 <= b.rows <= max && b == spec_build(n_cols, b.rows)
            },
        chunk_batches(n_cols, total, max).len() == (total + max - 1) / (max as int),
        chunk_batches(n_cols, total, max).len() <= total,
        chunk_batches(n_cols, total, max).len() == 0 <==> total == 0,
    decreases total,
{
    let bs = chunk_batches(n_cols, total, max);
    if total == 0 {
        assert((total + max - 1) / (max as int) == 0) by {
            vstd::arithmetic::div_mod::lemma_basic_div(max - 1, max as int);
        }
    } else {
        let head: nat = if total < max {
            total
        } else {
            max
        };
        let rest = chunk_batches(n_cols, (total - head) as nat, max);
        lemma_chunk_bounds(n_cols, (total - head) as nat, max);
        assert(bs.drop_first() =~= rest);
        assert(bs[0] == spec_build(n_cols, head));
        assert(total_rows(bs) == head + total_rows(rest));
        assert((total - 1) / (max as int) + 1 == (total - 1 + max) / (max as int)) by {
            vstd::arithmetic::div_mod::lemma_hoist_over_denominator(total - 1, 1, max);
        }
        if total < max {
            assert(((total - head) + max - 1) / (max as int) == 0) by {
                vstd::arithmetic::div_mod::lemma_basic_div(max - 1, max as int);
            }
            assert((total - 1) / (max as int) == 0) by {
                vstd::arithmetic::div_mod::lemma_basic_div(total - 1, max as int);
            }
        }
    }
}

/// The batch chunker: splits `total` rows into built batches of at most
/// `max` rows each, in order. A zero `max` is invalid configuration and is
/// rejected; schema-construction failures from the builder would be
/// propagated unchanged (the builder is proved never to produce one). Only
/// each batch's row count — the smaller of the total and the bound — must
/// fit a 32-bit column value.
pub fn chunk(n_cols: usize, total: usize, max: usize) -> (r: Result<Vec<Batch>, ServiceError>)
    requires
        total <= i32::MAX || max <= i32::MAX,
    ensures
        max == 0 ==> r matches Err(ServiceError::Configuration),
        max >= 1 ==> (r matches Ok(bs) && batch_views(bs@) == chunk_batches(
            n_cols as nat,
            total as nat,
            max as nat,
        )),
{
    if max == 0 {
        return Err(ServiceError::Configuration);
    }
    let ghost goal = chunk_batches(n_cols as nat, total as nat, max as nat);
    let mut out: Vec<Batch> = Vec::new();
    let mut remaining: usize = total;
    while remaining > 0
        invariant
            max >= 1,
            remaining <= total,
            total <= i32::MAX || max <= i32::MAX,
            batch_views(out@) + chunk_batches(n_cols as nat, remaining as nat, max as nat)
                =~= goal,
            goal == chunk_batches(n_cols as nat, total as nat, max as nat),
        decreases remaining,
    {
        let batch_rows: usize = if remaining < max {
            remaining
        } else {
            max
        };
        let b = match build(n_cols, batch_rows) {
            Ok(b) => b,
            Err(e) => {
                return Err(e);
            },
        };
        proof {
            assert(chunk_batches(n_cols as nat, remaining as nat, max as nat) == seq![
                spec_build(n_cols as nat, batch_rows as nat),
            ] + chunk_batches(n_cols as nat, (remaining - batch_rows) as nat, max as nat));
        }
        out.push(b);
        proof {
            assert(batch_views(out@) =~= batch_views(out@.drop_last()).push(
                spec_build(n_cols as nat, batch_rows as nat),
            ));
            assert(batch_views(out@) + chunk_batches(
                n_cols as nat,
                (remaining - batch_rows) as nat,
                max as nat,
            ) =~= goal);
        }
        remaining = remaining - batch_rows;
    }
    proof {
        assert(batch_views(out@) =~= goal);
    }
    Ok(out)
}

} // verus!
