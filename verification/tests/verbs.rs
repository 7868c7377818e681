use flight_rs::config::Config;
use flight_rs::errors::ServiceError;
use flight_rs::service::FlightServiceImpl;

fn small_service() -> FlightServiceImpl {
    let cfg = Config { n_columns: 2, n_rows: 5, max_rows: 3 };
    FlightServiceImpl::new(&cfg).unwrap()
}

#[test]
fn non_retrieval_verbs_are_unsupported() {
    let s = small_service();
    assert!(matches!(s.handshake(), Err(ServiceError::Unsupported)));
    assert!(matches!(s.list_flights(), Err(ServiceError::Unsupported)));
    assert!(matches!(s.get_flight_info(), Err(ServiceError::Unsupported)));
    assert!(matches!(s.poll_flight_info(), Err(ServiceError::Unsupported)));
    assert!(matches!(s.get_schema(), Err(ServiceError::Unsupported)));
    assert!(matches!(s.do_put(), Err(ServiceError::Unsupported)));
    assert!(matches!(s.do_action(), Err(ServiceError::Unsupported)));
    assert!(matches!(s.list_actions(), Err(ServiceError::Unsupported)));
    assert!(matches!(s.do_exchange(), Err(ServiceError::Unsupported)));
}

#[test]
fn unsupported_verbs_leave_the_dataset_untouched() {
    let s = small_service();
    let names_before = s.schema_names.clone();
    let sizes_before: Vec<usize> = s.chunked_batches.iter().map(|b| b.rows).collect();
    let _ = s.handshake();
    let _ = s.do_put();
    let _ = s.do_action();
    assert_eq!(s.schema_names, names_before);
    let sizes_after: Vec<usize> = s.chunked_batches.iter().map(|b| b.rows).collect();
    assert_eq!(sizes_after, sizes_before);
}

#[test]
fn default_sizing_chunks_the_whole_dataset() {
    let cfg = flight_rs::config::resolve_config(None, None, None);
    let s = FlightServiceImpl::new(&cfg).unwrap();
    assert_eq!(s.schema_names.len(), 30);
    assert_eq!(s.large_batch.rows, 700000);
    assert_eq!(s.chunked_batches.len(), 35);
    assert!(s.chunked_batches.iter().all(|b| b.rows <= 20000));
    let total: usize = s.chunked_batches.iter().map(|b| b.rows).sum();
    assert_eq!(total, 700000);
}

#[test]
fn retrieval_accepts_any_ticket() {
    let s = small_service();
    assert!(s.do_get(b"").is_ok());
    assert!(s.do_get(b"\x00\xff\x13garbage").is_ok());
    assert!(s.do_get(&[0u8; 1024]).is_ok());
}
