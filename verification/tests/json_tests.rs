use aisland::json::get_array_element;
use aisland::json::get_complex_field;
use aisland::json::get_field;
use aisland::json::get_record_element;
use aisland::json::is_well_formed;

#[test]
fn validator_accepts_flat_object() {
    assert!(is_well_formed(&b"{\"a\":\"b\"}".to_vec()));
    assert!(is_well_formed(&b"{\"a\":1,\"b\":2}".to_vec()));
    assert!(is_well_formed(&b"[1,2,3]".to_vec()));
}

#[test]
fn validator_is_deterministic() {
    let buf = b"{\"a\":\"b\"}".to_vec();
    let first = is_well_formed(&buf);
    let second = is_well_formed(&buf);
    assert_eq!(first, second);
    assert!(first);
}

#[test]
fn validator_minimum_length() {
    assert!(!is_well_formed(&b"".to_vec()));
    assert!(!is_well_formed(&b"{".to_vec()));
    assert!(!is_well_formed(&b"a".to_vec()));
}

#[test]
fn validator_mismatched_delimiters() {
    assert!(!is_well_formed(&b"{\"a\":\"b\"]".to_vec()));
    assert!(!is_well_formed(&b"[1,2,3}".to_vec()));
    assert!(!is_well_formed(&b"(1,2,3)".to_vec()));
}

#[test]
fn validator_open_string_rejected() {
    assert!(!is_well_formed(&b"{\"a\":\"b}".to_vec()));
}

#[test]
fn validator_escaped_quote_stays_in_string() {
    assert!(is_well_formed(&b"{\"a\":\"b\\\"c\"}".to_vec()));
}

#[test]
fn round_trip_simple_flat_object() {
    let buf = b"{\"k\":\"v\"}".to_vec();
    assert_eq!(get_field(&buf, &b"k".to_vec()), b"v".to_vec());
    let buf2 = b"{\"name\":\"John7\",\"city\":\"Sydney\"}".to_vec();
    assert_eq!(get_field(&buf2, &b"name".to_vec()), b"John7".to_vec());
    assert_eq!(get_field(&buf2, &b"city".to_vec()), b"Sydney".to_vec());
}

#[test]
fn get_field_numeric_and_missing() {
    let buf = b"{\"price\":100,\"qty\":7}".to_vec();
    assert_eq!(get_field(&buf, &b"price".to_vec()), b"100".to_vec());
    assert_eq!(get_field(&buf, &b"qty".to_vec()), b"7".to_vec());
    assert_eq!(get_field(&buf, &b"absent".to_vec()), b"".to_vec());
}

#[test]
fn get_field_one_level_array_value() {
    // a comma inside a one-level nested array does not end the scalar scan,
    // and the closing bracket is a terminator that is not collected
    let buf = b"{\"field\":[1,2,3],\"other\":4}".to_vec();
    assert_eq!(get_field(&buf, &b"field".to_vec()), b"[1,2,3".to_vec());
}

#[test]
fn get_field_first_occurrence_wins() {
    let buf = b"{\"a\":\"x\",\"a\":\"y\"}".to_vec();
    assert_eq!(get_field(&buf, &b"a".to_vec()), b"x".to_vec());
}

#[test]
fn get_field_key_longer_than_buffer() {
    let buf = b"{}".to_vec();
    assert_eq!(get_field(&buf, &b"averylongkey".to_vec()), b"".to_vec());
    assert_eq!(get_complex_field(&buf, &b"averylongkey".to_vec()), b"".to_vec());
}

#[test]
fn complex_field_extraction_scope() {
    let buf = b"{\"arr\":[1,2,3],\"other\":4}".to_vec();
    assert_eq!(get_complex_field(&buf, &b"arr".to_vec()), b"[1,2,3]".to_vec());
    assert_eq!(get_complex_field(&buf, &b"missing".to_vec()), b"".to_vec());
}

#[test]
fn complex_field_without_bracket_is_empty() {
    // a scalar value carries no array: nothing is captured
    assert_eq!(get_complex_field(&b"{\"a\":7}".to_vec(), &b"a".to_vec()), b"".to_vec());
    // a number before the next field, a quoted string, a closing brace
    let buf = b"{\"a\":7,\"b\":[1,2]}".to_vec();
    assert_eq!(get_complex_field(&buf, &b"a".to_vec()), b"".to_vec());
    assert_eq!(get_complex_field(&buf, &b"b".to_vec()), b"[1,2]".to_vec());
    let quoted = b"{\"a\":\"x[y]\"}".to_vec();
    assert_eq!(get_complex_field(&quoted, &b"a".to_vec()), b"".to_vec());
}

#[test]
fn array_iteration_termination() {
    let buf = b"[1,2,3]".to_vec();
    assert_eq!(get_array_element(&buf, 0), b"1".to_vec());
    assert_eq!(get_array_element(&buf, 1), b"2".to_vec());
    assert_eq!(get_array_element(&buf, 2), b"3".to_vec());
    assert_eq!(get_array_element(&buf, 3), b"".to_vec());
}

#[test]
fn record_iteration_with_nested_commas() {
    let buf = b"[{\"a\":1,\"b\":2},{\"a\":3}]".to_vec();
    assert_eq!(get_record_element(&buf, 0), b"{\"a\":1,\"b\":2}".to_vec());
    assert_eq!(get_record_element(&buf, 1), b"{\"a\":3}".to_vec());
    assert_eq!(get_record_element(&buf, 2), b"".to_vec());
}

#[test]
fn quoted_comma_does_not_split() {
    let buf = b"[\"x,y\",\"z\"]".to_vec();
    assert_eq!(get_array_element(&buf, 0), b"x,y".to_vec());
    assert_eq!(get_array_element(&buf, 1), b"z".to_vec());
    assert_eq!(get_array_element(&buf, 2), b"".to_vec());
}

#[test]
fn adversarial_short_inputs_signal_not_found() {
    let empty = b"".to_vec();
    let one = b"{".to_vec();
    let key = b"k".to_vec();
    assert!(!is_well_formed(&empty));
    assert!(!is_well_formed(&one));
    assert_eq!(get_field(&empty, &key), b"".to_vec());
    assert_eq!(get_field(&one, &key), b"".to_vec());
    assert_eq!(get_complex_field(&empty, &key), b"".to_vec());
    assert_eq!(get_complex_field(&one, &key), b"".to_vec());
    assert_eq!(get_array_element(&empty, 0), b"".to_vec());
    assert_eq!(get_array_element(&one, 0), b"{".to_vec());
    assert_eq!(get_record_element(&empty, 0), b"".to_vec());
    assert_eq!(get_record_element(&one, 0), b"{".to_vec());
}

#[test]
fn adversarial_truncated_documents_do_not_panic() {
    let doc = b"{\"arr\":[1,\"x,y\"],\"k\":\"v\\\"w\"}".to_vec();
    let key = b"arr".to_vec();
    for n in 0..doc.len() {
        let cut = doc[..n].to_vec();
        let _ = is_well_formed(&cut);
        let _ = get_field(&cut, &key);
        let _ = get_complex_field(&cut, &key);
        let _ = get_array_element(&cut, 1);
        let _ = get_record_element(&cut, 1);
    }
}
