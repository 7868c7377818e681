use flight_rs::batch::Batch;
use flight_rs::config::Config;
use flight_rs::errors::ServiceError;
use flight_rs::frames::{decode_frames, WireFrame};
use flight_rs::service::FlightServiceImpl;

fn collect_frames(service: &FlightServiceImpl) -> Vec<WireFrame> {
    let mut stream = service.do_get(b"any-ticket").unwrap();
    let mut frames: Vec<WireFrame> = Vec::new();
    while let Some(step) = stream.next() {
        frames.push(step.unwrap());
    }
    frames
}

fn assert_same_batches(decoded: &[Batch], expected: &[Batch]) {
    assert_eq!(decoded.len(), expected.len());
    for (d, e) in decoded.iter().zip(expected.iter()) {
        assert_eq!(d.rows, e.rows);
        assert_eq!(d.names, e.names);
        assert_eq!(d.cols, e.cols);
    }
}

#[test]
fn retrieval_streams_schema_then_batches_in_order() {
    let cfg = Config { n_columns: 2, n_rows: 5, max_rows: 3 };
    let service = FlightServiceImpl::new(&cfg).unwrap();
    let frames = collect_frames(&service);
    // one schema frame, then one data frame per chunk: 3 rows, then 2 rows
    assert_eq!(frames.len(), 3);

    let decoded = decode_frames(&frames).unwrap();
    assert_eq!(decoded.len(), 2);
    assert_eq!(decoded[0].rows, 3);
    assert_eq!(decoded[1].rows, 2);
    assert_eq!(decoded[0].names, vec!["col0".to_string(), "col1".to_string()]);
    for col in &decoded[0].cols {
        assert_eq!(col, &vec![0i32, 1, 2]);
    }
    for col in &decoded[1].cols {
        assert_eq!(col, &vec![0i32, 1]);
    }
    assert_same_batches(&decoded, &service.chunked_batches);
}

#[test]
fn round_trip_reconstructs_the_dataset() {
    let cfg = Config { n_columns: 3, n_rows: 7, max_rows: 4 };
    let service = FlightServiceImpl::new(&cfg).unwrap();
    let frames = collect_frames(&service);
    let decoded = decode_frames(&frames).unwrap();
    assert_same_batches(&decoded, &service.chunked_batches);
    let total: usize = decoded.iter().map(|b| b.rows).sum();
    assert_eq!(total, 7);
}

#[test]
fn empty_dataset_streams_only_the_schema_frame() {
    let cfg = Config { n_columns: 2, n_rows: 0, max_rows: 3 };
    let service = FlightServiceImpl::new(&cfg).unwrap();
    let mut stream = service.do_get(b"").unwrap();
    assert_eq!(stream.frames_left(), 1);
    let first = stream.next();
    assert!(matches!(first, Some(Ok(_))));
    assert!(stream.next().is_none());
    assert!(stream.next().is_none());

    let frames = vec![first.unwrap().unwrap()];
    let decoded = decode_frames(&frames).unwrap();
    assert!(decoded.is_empty());
}

#[test]
fn zero_batch_bound_fails_startup() {
    let cfg = Config { n_columns: 2, n_rows: 5, max_rows: 0 };
    let r = FlightServiceImpl::new(&cfg);
    assert!(matches!(r, Err(ServiceError::Configuration)));
}

#[test]
fn stream_is_exhausted_after_the_last_frame() {
    let cfg = Config { n_columns: 1, n_rows: 2, max_rows: 2 };
    let service = FlightServiceImpl::new(&cfg).unwrap();
    let mut stream = service.do_get(b"ticket").unwrap();
    assert_eq!(stream.frames_left(), 2);
    assert!(stream.next().is_some());
    assert_eq!(stream.frames_left(), 1);
    assert!(stream.next().is_some());
    assert_eq!(stream.frames_left(), 0);
    assert!(stream.next().is_none());
    assert_eq!(stream.frames_left(), 0);
}

#[test]
fn undecodable_frames_are_an_encoding_error() {
    let junk = vec![WireFrame { header: vec![1, 2, 3], body: vec![4, 5], meta: vec![] }];
    let r = decode_frames(&junk);
    assert!(matches!(r, Err(ServiceError::InternalEncoding(_))));
}

#[test]
fn empty_frame_sequence_is_an_encoding_error() {
    let r = decode_frames(&Vec::new());
    assert!(matches!(r, Err(ServiceError::InternalEncoding(_))));
}

#[test]
fn large_and_chunked_representations_agree() {
    let cfg = Config { n_columns: 4, n_rows: 10, max_rows: 3 };
    let service = FlightServiceImpl::new(&cfg).unwrap();
    assert_eq!(service.large_batch.rows, 10);
    assert_eq!(service.large_batch.names, service.schema_names);
    let chunked_total: usize = service.chunked_batches.iter().map(|b| b.rows).sum();
    assert_eq!(chunked_total, service.large_batch.rows);
    for b in &service.chunked_batches {
        assert_eq!(b.names, service.schema_names);
    }
}
