use vstd::prelude::*;

use crate::batch::{batch_views, batch_wf, batch_is_wf, Batch, BatchView};
use crate::errors::ServiceError;

use arrow::array::{ArrayRef, Int32Array};
use arrow::datatypes::{DataType, Field, Schema};
use arrow::record_batch::RecordBatch;
use arrow_flight::FlightData;
use arrow_flight::utils::{batches_to_flight_data, flight_data_to_batches};
use std::sync::Arc;

verus! {

/// One self-describing unit of the streaming wire format — a Flight data
/// message as plain bytes: its IPC header, its data body, and its
/// application metadata.
#[derive(Clone)]
pub struct WireFrame {
    pub header: Vec<u8>,
    pub body: Vec<u8>,
    pub meta: Vec<u8>,
}

/// Mathematical model of a wire frame.
pub ghost struct WireFrameView {
    pub header: Seq<u8>,
    pub body: Seq<u8>,
    pub meta: Seq<u8>,
}

impl View for WireFrame {
    type V = WireFrameView;

    open spec fn view(&self) -> WireFrameView {
        WireFrameView { header: self.header@, body: self.body@, meta: self.meta@ }
    }
}

/// The views of a frame sequence, in order.
pub open spec fn frame_views(fs: Seq<WireFrame>) -> Seq<WireFrameView> {
    fs.map_values(|f: WireFrame| f@)
}

/// The schema-description frame that the wire encoder produces for a schema
/// of non-nullable 32-bit integer columns with the given names. A function
/// of the names alone; its exact bytes are the encoder's business.
pub uninterp spec fn schema_frame_of(names: Seq<Seq<char>>) -> WireFrameView;

/// The data frame that the wire encoder produces for one batch. A function
/// of the batch's names and column contents alone; its exact bytes are the
/// encoder's business.
pub uninterp spec fn data_frame_of(batch: BatchView) -> WireFrameView;

/// What the wire decoder reconstructs from a frame sequence: the decoded
/// batches, or nothing where the sequence is not a schema frame followed by
/// data frames of that schema. A function of the frames alone.
pub uninterp spec fn decoded_of(frames: Seq<WireFrameView>) -> Option<Seq<BatchView>>;

/// Relies on arrow_flight::utils::batches_to_flight_data: handed a schema
/// and no batches, it returns exactly one frame, the schema-description
/// frame, and it is a deterministic function of the schema. With an empty
/// batch list its loop never runs and the schema message conversion is
/// infallible, so this call cannot fail.
#[verifier::external_body]
pub(crate) fn encode_schema_frame(names: &Vec<String>) -> (r: Result<WireFrame, String>)
    ensures
        r is Ok,
        r matches Ok(f) ==> f@ == schema_frame_of(names.deep_view()),
{
    let fields: Vec<Field> = names.iter().map(|n| Field::new(n, DataType::Int32, false)).collect();
    let none: Vec<RecordBatch> = Vec::new();
    let mut fs = batches_to_flight_data(&Schema::new(fields), &none).map_err(|e| e.to_string())?;
    let fd = fs.pop().ok_or(String::new())?;
    Ok(WireFrame { header: fd.data_header.to_vec(), body: fd.data_body.to_vec(), meta: fd.app_metadata.to_vec() })
}

/// Relies on arrow_flight::utils::batches_to_flight_data: handed a schema
/// and one 32-bit integer batch (which needs no dictionary frames), it
/// returns the schema frame followed by exactly that batch's data frame,
/// and the data frame is a deterministic function of the batch alone.
/// RecordBatch::try_new fails only on a count or length mismatch or on zero
/// columns, and the IPC encoding of plain Int32 columns with default
/// options has no error path, so a well-formed batch with at least one
/// column always encodes; any failure surfaces as the codec's message.
#[verifier::external_body]
pub(crate) fn encode_data_frame(b: &Batch) -> (r: Result<WireFrame, String>)
    ensures
        batch_wf(b@) && b@.cols.len() >= 1 ==> r is Ok,
        r matches Ok(f) ==> f@ == data_frame_of(b@),
{
    let fields: Vec<Field> = b.names.iter().map(|n| Field::new(n, DataType::Int32, false)).collect();
    let cols = b.cols.iter().map(|c| Arc::new(Int32Array::from(c.clone())) as ArrayRef).collect();
    let schema = Arc::new(Schema::new(fields));
    let rb = RecordBatch::try_new(schema.clone(), cols).map_err(|e| e.to_string())?;
    let fd = batches_to_flight_data(&schema, &[rb]).map_err(|e| e.to_string())?.pop().ok_or(String::new())?;
    Ok(WireFrame { header: fd.data_header.to_vec(), body: fd.data_body.to_vec(), meta: fd.app_metadata.to_vec() })
}

/// Relies on arrow_flight::utils::flight_data_to_batches: decoding is a
/// deterministic function of the frames alone; it fails on anything that is
/// not a schema frame followed by data frames. Columns that are not 32-bit
/// integers are rejected in the same way.
#[verifier::external_body]
fn decode_raw(frames: Vec<WireFrame>) -> (r: Option<Vec<Batch>>)
    ensures
        r matches Some(bs) ==> decoded_of(frame_views(frames@)) == Some(batch_views(bs@)),
        r is None ==> decoded_of(frame_views(frames@)) is None,
{
    let fds: Vec<_> = frames.into_iter().map(|f| FlightData {
        flight_descriptor: None,
        data_header: f.header.into(),
        app_metadata: f.meta.into(),
        data_body: f.body.into(),
    }).collect();
    let rbs = flight_data_to_batches(&fds).ok()?;
    rbs.iter().map(|rb| Some(Batch {
        names: rb.schema().fields().iter().map(|f| f.name().clone()).collect(),
        rows: rb.num_rows(),
        cols: rb.columns().iter().map(
            |c| Some(c.as_any().downcast_ref::<Int32Array>()?.values().to_vec()),
        ).collect::<Option<_>>()?,
    })).collect()
}

/// Copy one byte column.
fn copy_bytes(v: &Vec<u8>) -> (r: Vec<u8>)
    ensures
        r@ == v@,
{
    let mut r: Vec<u8> = Vec::new();
    let mut i: usize = 0;
    while i < v.len()
        invariant
            i <= v@.len(),
            r@.len() == i,
            forall|k: int| 0 <= k < i ==> r@[k] == v@[k],
        decreases v@.len() - i,
    {
        r.push(v[i]);
        i = i + 1;
    }
    proof {
        assert(r@ =~= v@);
    }
    r
}

/// Copy a frame list; the copies' views equal the originals'.
fn copy_frames(v: &Vec<WireFrame>) -> (r: Vec<WireFrame>)
    ensures
        frame_views(r@) == frame_views(v@),
{
    let mut r: Vec<WireFrame> = Vec::new();
    let mut i: usize = 0;
    while i < v.len()
        invariant
            i <= v@.len(),
            r@.len() == i,
            forall|k: int| 0 <= k < i ==> r@[k]@ == v@[k]@,
        decreases v@.len() - i,
    {
        let f = &v[i];
        r.push(
            WireFrame {
                header: copy_bytes(&f.header),
                body: copy_bytes(&f.body),
                meta: copy_bytes(&f.meta),
            },
        );
        i = i + 1;
    }
    proof {
        assert forall|k: int| 0 <= k < v@.len() implies frame_views(r@)[k] == frame_views(v@)[k]
        by {
            assert(frame_views(r@)[k] == r@[k]@);
            assert(frame_views(v@)[k] == v@[k]@);
        }
        assert(frame_views(r@) =~= frame_views(v@));
    }
    r
}

/// Whether a frame sequence decodes cleanly: the decoder reconstructs a
/// batch sequence and every reconstructed batch is well-formed.
pub open spec fn decode_ok(frames: Seq<WireFrameView>) -> bool {
    match decoded_of(frames) {
        Some(vs) => forall|i: int| 0 <= i < vs.len() ==> batch_wf(#[trigger] vs[i]),
        None => false,
    }
}

/// Decode a wire frame sequence back into its batches. Succeeds exactly
/// when the decoder reconstructs a sequence of well-formed batches; any
/// other input is reported as an encoding-level failure, never a panic.
pub fn decode_frames(frames: &Vec<WireFrame>) -> (r: Result<Vec<Batch>, ServiceError>)
    ensures
        r is Ok <==> decode_ok(frame_views(frames@)),
        r matches Ok(bs) ==> decoded_of(frame_views(frames@)) == Some(batch_views(bs@)),
        r matches Err(e) ==> (e matches ServiceError::InternalEncoding(_)),
{
    match decode_raw(copy_frames(frames)) {
        Some(bs) => {
            let mut i: usize = 0;
            while i < bs.len()
                invariant
                    i <= bs@.len(),
                    decoded_of(frame_views(frames@)) == Some(batch_views(bs@)),
                    forall|k: int| 0 <= k < i ==> batch_wf(#[trigger] batch_views(bs@)[k]),
                decreases bs@.len() - i,
            {
                let ok = batch_is_wf(&bs[i]);
                proof {
                    let vs = batch_views(bs@);
                    assert(vs[i as int] == bs@[i as int]@);
                    if !ok && decode_ok(frame_views(frames@)) {
                        let dvs = decoded_of(frame_views(frames@)).unwrap();
                        assert(batch_wf(dvs[i as int]));
                        assert(dvs[i as int] == vs[i as int]);
                        assert(false);
                    }
                }
                if !ok {
                    return Err(
                        ServiceError::InternalEncoding("malformed decoded batch".to_string()),
                    );
                }
                i = i + 1;
            }
            Ok(bs)
        },
        None => Err(ServiceError::InternalEncoding("undecodable frame sequence".to_string())),
    }
}

} // verus!
