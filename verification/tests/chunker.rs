use flight_rs::chunk::chunk;
use flight_rs::errors::ServiceError;

#[test]
fn chunk_two_columns_five_rows_bound_three() {
    let bs = chunk(2, 5, 3).unwrap();
    assert_eq!(bs.len(), 2);

    assert_eq!(bs[0].rows, 3);
    assert_eq!(bs[0].names, vec!["col0".to_string(), "col1".to_string()]);
    for col in &bs[0].cols {
        assert_eq!(col, &vec![0i32, 1, 2]);
    }

    assert_eq!(bs[1].rows, 2);
    assert_eq!(bs[1].names, vec!["col0".to_string(), "col1".to_string()]);
    for col in &bs[1].cols {
        assert_eq!(col, &vec![0i32, 1]);
    }
}

#[test]
fn chunk_row_counts_sum_to_total() {
    let bs = chunk(1, 10, 4).unwrap();
    let sizes: Vec<usize> = bs.iter().map(|b| b.rows).collect();
    assert_eq!(sizes, vec![4, 4, 2]);
    assert_eq!(sizes.iter().sum::<usize>(), 10);
    assert!(sizes.iter().all(|&s| s <= 4));
}

#[test]
fn chunk_count_is_ceiling() {
    assert_eq!(chunk(1, 6, 3).unwrap().len(), 2);
    assert_eq!(chunk(1, 7, 3).unwrap().len(), 3);
    assert_eq!(chunk(1, 1, 20000).unwrap().len(), 1);
}

#[test]
fn chunk_zero_total_gives_no_batches() {
    let bs = chunk(3, 0, 5).unwrap();
    assert!(bs.is_empty());
}

#[test]
fn chunk_zero_bound_is_configuration_error() {
    let r = chunk(3, 10, 0);
    assert!(matches!(r, Err(ServiceError::Configuration)));
}
