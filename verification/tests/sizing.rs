use flight_rs::config::{parse_usize, resolve_config, resolve_param};

#[test]
fn defaults_when_nothing_is_set() {
    let c = resolve_config(None, None, None);
    assert_eq!(c.n_columns, 30);
    assert_eq!(c.n_rows, 700000);
    assert_eq!(c.max_rows, 20000);
}

#[test]
fn values_override_defaults() {
    let c = resolve_config(
        Some(b"2".to_vec()),
        Some(b"5".to_vec()),
        Some(b"3".to_vec()),
    );
    assert_eq!(c.n_columns, 2);
    assert_eq!(c.n_rows, 5);
    assert_eq!(c.max_rows, 3);
}

#[test]
fn unparsable_values_fall_back_independently() {
    let c = resolve_config(
        Some(b"abc".to_vec()),
        Some(b"41".to_vec()),
        Some(b"".to_vec()),
    );
    assert_eq!(c.n_columns, 30);
    assert_eq!(c.n_rows, 41);
    assert_eq!(c.max_rows, 20000);
}

#[test]
fn parse_accepts_plain_and_plus_prefixed_decimals() {
    assert_eq!(parse_usize(b"42"), Some(42));
    assert_eq!(parse_usize(b"+7"), Some(7));
    assert_eq!(parse_usize(b"0"), Some(0));
    assert_eq!(parse_usize(b"000123"), Some(123));
}

#[test]
fn parse_rejects_junk() {
    assert_eq!(parse_usize(b""), None);
    assert_eq!(parse_usize(b"+"), None);
    assert_eq!(parse_usize(b"-3"), None);
    assert_eq!(parse_usize(b"1x"), None);
    assert_eq!(parse_usize(b" 1"), None);
    assert_eq!(parse_usize(b"99999999999999999999999999999"), None);
}

#[test]
fn parse_boundary_values() {
    let max = usize::MAX.to_string();
    assert_eq!(parse_usize(max.as_bytes()), Some(usize::MAX));
    let over = format!("{}0", max);
    assert_eq!(parse_usize(over.as_bytes()), None);
    assert_eq!(resolve_param(Some(over.into_bytes()), 11), 11);
    assert_eq!(resolve_param(None, 11), 11);
}
