use vstd::prelude::*;

use crate::batch::{batch_views, batch_wf, Batch, BatchView};
use crate::errors::ServiceError;
use crate::frames::{data_frame_of, schema_frame_of, WireFrame, WireFrameView};
use crate::frames::{encode_data_frame, encode_schema_frame};

verus! {

/// The planned frame sequence of a retrieval: the schema-description frame
/// first, then one data frame per batch, in the dataset's batch order.
pub open spec fn frame_plan(names: Seq<Seq<char>>, batches: Seq<BatchView>) -> Seq<
    WireFrameView,
> {
    seq![schema_frame_of(names)] + batches.map_values(|b: BatchView| data_frame_of(b))
}

/// Law: ordering is preserved end to end — the planned stream has exactly
/// one frame per batch after the schema frame, the schema frame comes
/// first, and the frame at position `i + 1` is batch `i`'s data frame.
pub proof fn lemma_frame_order(names: Seq<Seq<char>>, batches: Seq<BatchView>)
    ensures
        frame_plan(names, batches).len() == batches.len() + 1,
        frame_plan(names, batches)[0] == schema_frame_of(names),
        forall|i: int|
            0 <= i < batches.len() ==> frame_plan(names, batches)[i + 1] == data_frame_of(
                #[trigger] batches[i],
            ),
{
}

/// Law: a dataset with no batches streams the schema frame and nothing
/// else.
pub proof fn lemma_empty_dataset_stream(names: Seq<Seq<char>>)
    ensures
        frame_plan(names, Seq::<BatchView>::empty()).len() == 1,
        frame_plan(names, Seq::<BatchView>::empty())[0] == schema_frame_of(names),
{
}

/// A pull-driven encoder over a frozen batch sequence. Each `next` call
/// encodes at most one frame, so peak memory stays near one batch's encoded
/// size, and a consumer that stops pulling (backpressure or cancellation)
/// stops all further encoding work.
pub struct FrameStream {
    pub names: Vec<String>,
    pub batches: Vec<Batch>,
    pub pos: usize,
    pub failed: bool,
}

impl FrameStream {
    /// The frames this stream is to produce, in order.
    pub open spec fn plan(self) -> Seq<WireFrameView> {
        frame_plan(self.names.deep_view(), batch_views(self.batches@))
    }

    pub open spec fn wf(self) -> bool {
        &&& self.pos <= self.plan().len()
        &&& self.batches@.len() < usize::MAX
    }

    /// Whether the pending step is one the encoder is bound to deliver:
    /// the schema frame always, a data frame whenever its batch is
    /// well-formed and has at least one column (the wire schema is
    /// inferred from the columns, so a zero-column batch cannot encode).
    pub open spec fn owes_frame(self) -> bool {
        self.pos == 0 || {
            let b = batch_views(self.batches@)[self.pos - 1];
            batch_wf(b) && b.cols.len() >= 1
        }
    }

    /// Produce the next wire frame: the schema frame first, then the
    /// batches' data frames in dataset order. Returns `None` once the
    /// stream has completed or failed; a failed encoding step ends the
    /// stream with the codec's message and nothing is retried. While the
    /// stream is live and the pending step is owed, the frame is delivered,
    /// never an error.
    pub fn next(&mut self) -> (r: Option<Result<WireFrame, ServiceError>>)
        requires
            old(self).wf(),
        ensures
            final(self).wf(),
            final(self).names == old(self).names,
            final(self).batches == old(self).batches,
            (old(self).failed || old(self).pos == old(self).plan().len()) ==> (r is None
                && *final(self) == *old(self)),
            r is None ==> (old(self).failed || old(self).pos == old(self).plan().len()),
            (!old(self).failed && old(self).pos < old(self).plan().len()
                && old(self).owes_frame()) ==> (r matches Some(Ok(f))
                && f@ == old(self).plan()[old(self).pos as int]),
            r matches Some(Ok(f)) ==> {
                &&& !old(self).failed
                &&& old(self).pos < old(self).plan().len()
                &&& f@ == old(self).plan()[old(self).pos as int]
                &&& final(self).pos == old(self).pos + 1
                &&& !final(self).failed
            },
            r matches Some(Err(e)) ==> {
                &&& e matches ServiceError::InternalEncoding(_)
                &&& final(self).failed
                &&& final(self).pos == old(self).pos
            },
    {
        if self.failed || self.pos > self.batches.len() {
            proof {
                assert(self.plan().len() == self.batches@.len() + 1);
            }
            return None;
        }
        let res: Result<WireFrame, String> = if self.pos == 0 {
            encode_schema_frame(&self.names)
        } else {
            encode_data_frame(&self.batches[self.pos - 1])
        };
        match res {
            Ok(f) => {
                proof {
                    if self.pos > 0 {
                        assert(batch_views(self.batches@)[self.pos - 1] == self.batches@[self.pos
                            - 1]@);
                        assert(self.plan()[self.pos as int] == data_frame_of(
                            batch_views(self.batches@)[self.pos - 1],
                        ));
                    } else {
                        assert(self.plan()[0] == schema_frame_of(self.names.deep_view()));
                    }
                }
                self.pos = self.pos + 1;
                Some(Ok(f))
            },
            Err(msg) => {
                proof {
                    if self.pos > 0 {
                        assert(batch_views(self.batches@)[self.pos - 1] == self.batches@[self.pos
                            - 1]@);
                    }
                }
                self.failed = true;
                Some(Err(ServiceError::InternalEncoding(msg)))
            },
        }
    }

    /// How many frames remain if every encoding step succeeds: none after a
    /// failure, otherwise the planned frames not yet produced.
    pub fn frames_left(&self) -> (r: usize)
        requires
            self.wf(),
        ensures
            self.failed ==> r == 0,
            !self.failed ==> r == self.plan().len() - self.pos,
    {
        if self.failed {
            0
        } else {
            proof {
                assert(self.plan().len() == self.batches@.len() + 1);
            }
            self.batches.len() + 1 - self.pos
        }
    }
}

} // verus!
