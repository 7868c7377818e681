use flight_rs::batch::{batch_is_wf, build, build_names};

#[test]
fn build_small_batch_columns() {
    let b = build(3, 4).unwrap();
    assert_eq!(b.rows, 4);
    assert_eq!(b.names.len(), 3);
    assert_eq!(b.names[0], "col0");
    assert_eq!(b.names[1], "col1");
    assert_eq!(b.names[2], "col2");
    assert_eq!(b.cols.len(), 3);
    for col in &b.cols {
        assert_eq!(col, &vec![0i32, 1, 2, 3]);
    }
    assert!(batch_is_wf(&b));
}

#[test]
fn build_is_deterministic() {
    let a = build(5, 9).unwrap();
    let b = build(5, 9).unwrap();
    assert_eq!(a.rows, b.rows);
    assert_eq!(a.names, b.names);
    assert_eq!(a.cols, b.cols);
}

#[test]
fn build_zero_rows() {
    let b = build(2, 0).unwrap();
    assert_eq!(b.rows, 0);
    assert_eq!(b.names.len(), 2);
    for col in &b.cols {
        assert!(col.is_empty());
    }
}

#[test]
fn build_zero_columns() {
    let b = build(0, 7).unwrap();
    assert_eq!(b.rows, 7);
    assert!(b.names.is_empty());
    assert!(b.cols.is_empty());
}

#[test]
fn build_names_two_digit_positions() {
    let names = build_names(12);
    assert_eq!(names.len(), 12);
    assert_eq!(names[9], "col9");
    assert_eq!(names[10], "col10");
    assert_eq!(names[11], "col11");
}
