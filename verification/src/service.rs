use vstd::prelude::*;

use crate::batch::{
    batch_views, batch_wf, build, build_names, copy_batches, copy_names, lemma_build_columns,
    spec_build, Batch,
};
use crate::chunk::{chunk, chunk_batches, lemma_chunk_bounds};
use crate::config::Config;
use crate::errors::ServiceError;
use crate::frames::{data_frame_of, schema_frame_of};
use crate::stream::{frame_plan, lemma_frame_order, FrameStream};

verus! {

/// The service: a process-lifetime, read-only snapshot of the synthetic
/// dataset — the chunked batch sequence that retrieval streams, one
/// unchunked reference batch of the full size, and the shared schema's
/// column names — plus one method per protocol verb.
pub struct FlightServiceImpl {
    pub schema_names: Vec<String>,
    pub large_batch: Batch,
    pub chunked_batches: Vec<Batch>,
}

impl FlightServiceImpl {
    /// The dataset that a configuration produces: the schema names and the
    /// unchunked batch come from the builder at the full size, and the
    /// chunked sequence is exactly the chunker's output. Both
    /// representations share one schema and one total row count.
    pub open spec fn built_from(self, n_cols: nat, n_rows: nat, max: nat) -> bool {
        &&& self.schema_names.deep_view() == spec_build(n_cols, n_rows).names
        &&& self.large_batch@ == spec_build(n_cols, n_rows)
        &&& batch_views(self.chunked_batches@) == chunk_batches(n_cols, n_rows, max)
    }

    pub open spec fn wf(self) -> bool {
        self.chunked_batches@.len() < usize::MAX
    }

    /// Startup wiring: build the dataset once from the resolved sizing
    /// configuration. A zero rows-per-batch bound is invalid configuration
    /// and fails startup; nothing partial is ever produced.
    pub fn new(cfg: &Config) -> (r: Result<FlightServiceImpl, ServiceError>)
        requires
            cfg.n_rows <= i32::MAX,
        ensures
            cfg.max_rows == 0 ==> (r matches Err(ServiceError::Configuration)),
            cfg.max_rows >= 1 ==> (r matches Ok(s) && s.built_from(
                cfg.n_columns as nat,
                cfg.n_rows as nat,
                cfg.max_rows as nat,
            ) && s.wf()),
    {
        if cfg.max_rows == 0 {
            return Err(ServiceError::Configuration);
        }
        let chunked = match chunk(cfg.n_columns, cfg.n_rows, cfg.max_rows) {
            Ok(v) => v,
            Err(e) => {
                return Err(e);
            },
        };
        let large = match build(cfg.n_columns, cfg.n_rows) {
            Ok(b) => b,
            Err(e) => {
                return Err(e);
            },
        };
        let names = build_names(cfg.n_columns);
        proof {
            lemma_chunk_bounds(cfg.n_columns as nat, cfg.n_rows as nat, cfg.max_rows as nat);
        }
        Ok(FlightServiceImpl { schema_names: names, large_batch: large, chunked_batches: chunked })
    }

    /// The retrieval verb. The ticket is accepted whatever it holds — it
    /// never fails and never panics — and the reply is a fresh pull-driven
    /// stream planned over this dataset's batches in their original order.
    pub fn do_get(&self, _ticket: &[u8]) -> (r: Result<FrameStream, ServiceError>)
        requires
            self.wf(),
        ensures
            r matches Ok(s) && s.wf() && s.pos == 0 && !s.failed && s.names.deep_view()
                == self.schema_names.deep_view() && batch_views(s.batches@) == batch_views(
                self.chunked_batches@,
            ) && s.plan() == frame_plan(
                self.schema_names.deep_view(),
                batch_views(self.chunked_batches@),
            ),
    {
        let names = copy_names(&self.schema_names);
        let batches = copy_batches(&self.chunked_batches);
        Ok(FrameStream { names, batches, pos: 0, failed: false })
    }

    /// Law: end-to-end ordering and delivery of a retrieval over a built
    /// dataset — the planned stream is the schema frame for the builder's
    /// column names, followed by one data frame per chunked batch, in chunk
    /// order; a dataset whose total row count gave no batches plans the
    /// schema frame alone; and every chunked batch is well-formed with
    /// exactly the configured column count, so with at least one column
    /// every planned frame is one the stream's `next` is bound to deliver.
    pub proof fn lemma_retrieval_plan(self, n_cols: nat, n_rows: nat, max: nat)
        requires
            max >= 1,
            self.built_from(n_cols, n_rows, max),
        ensures
            ({
                let plan = frame_plan(
                    self.schema_names.deep_view(),
                    batch_views(self.chunked_batches@),
                );
                &&& plan.len() == chunk_batches(n_cols, n_rows, max).len() + 1
                &&& plan[0] == schema_frame_of(spec_build(n_cols, n_rows).names)
                &&& forall|i: int|
                    0 <= i < chunk_batches(n_cols, n_rows, max).len() ==> plan[i + 1]
                        == data_frame_of(#[trigger] chunk_batches(n_cols, n_rows, max)[i])
                &&& n_rows == 0 ==> plan.len() == 1
            }),
            forall|i: int|
                0 <= i < chunk_batches(n_cols, n_rows, max).len() ==> {
                    let b = #[trigger] chunk_batches(n_cols, n_rows, max)[i];
                    batch_wf(b) && b.cols.len() == n_cols
                },
    {
        lemma_frame_order(self.schema_names.deep_view(), batch_views(self.chunked_batches@));
        lemma_chunk_bounds(n_cols, n_rows, max);
        let cb = chunk_batches(n_cols, n_rows, max);
        assert forall|i: int| 0 <= i < cb.len() implies (batch_wf(cb[i]) && cb[i].cols.len()
            == n_cols) by {
            lemma_build_columns(n_cols, cb[i].rows);
        }
    }

    /// Negotiation is not supported: an explicit, immediate signal with no
    /// side effects.
    pub fn handshake(&self) -> (r: Result<(), ServiceError>)
        ensures
            r matches Err(ServiceError::Unsupported),
    {
        Err(ServiceError::Unsupported)
    }

    /// Flight listing is not supported.
    pub fn list_flights(&self) -> (r: Result<(), ServiceError>)
        ensures
            r matches Err(ServiceError::Unsupported),
    {
        Err(ServiceError::Unsupported)
    }

    /// Flight-info lookup is not supported.
    pub fn get_flight_info(&self) -> (r: Result<(), ServiceError>)
        ensures
            r matches Err(ServiceError::Unsupported),
    {
        Err(ServiceError::Unsupported)
    }

    /// Poll-based flight-info lookup is not supported.
    pub fn poll_flight_info(&self) -> (r: Result<(), ServiceError>)
        ensures
            r matches Err(ServiceError::Unsupported),
    {
        Err(ServiceError::Unsupported)
    }

    /// Schema-only lookup is not supported.
    pub fn get_schema(&self) -> (r: Result<(), ServiceError>)
        ensures
            r matches Err(ServiceError::Unsupported),
    {
        Err(ServiceError::Unsupported)
    }

    /// Ingestion is not supported.
    pub fn do_put(&self) -> (r: Result<(), ServiceError>)
        ensures
            r matches Err(ServiceError::Unsupported),
    {
        Err(ServiceError::Unsupported)
    }

    /// Generic action dispatch is not supported.
    pub fn do_action(&self) -> (r: Result<(), ServiceError>)
        ensures
            r matches Err(ServiceError::Unsupported),
    {
        Err(ServiceError::Unsupported)
    }

    /// Action listing is not supported.
    pub fn list_actions(&self) -> (r: Result<(), ServiceError>)
        ensures
            r matches Err(ServiceError::Unsupported),
    {
        Err(ServiceError::Unsupported)
    }

    /// Bidirectional exchange is not supported.
    pub fn do_exchange(&self) -> (r: Result<(), ServiceError>)
        ensures
            r matches Err(ServiceError::Unsupported),
    {
        Err(ServiceError::Unsupported)
    }
}

} // verus!
