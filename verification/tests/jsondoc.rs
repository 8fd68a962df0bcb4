use porkbun_rs::jsondoc::{parse_json, get_opt_string, get_string, get_u32, get_u64, JsonValue};

#[test]
fn parse_rejects_non_json() {
    assert!(parse_json("not json").is_none());
    assert!(parse_json("").is_none());
    assert!(parse_json("{\"unterminated\":").is_none());
}

#[test]
fn parse_and_read_fields() {
    let doc = parse_json("{\"name\":\"www\",\"ttl\":600,\"note\":null}").unwrap();
    assert_eq!(get_string(&doc, "name"), Some("www".to_string()));
    assert_eq!(get_u64(&doc, "ttl"), Some(600));
    assert_eq!(get_u32(&doc, "ttl"), Some(600));
    // absent and null both read as no value; a number is not a string
    assert_eq!(get_opt_string(&doc, "missing"), Some(None));
    assert_eq!(get_opt_string(&doc, "note"), Some(None));
    assert_eq!(get_opt_string(&doc, "ttl"), None);
    assert_eq!(get_string(&doc, "ttl"), None);
}

#[test]
fn numbers_outside_u64_carry_no_value() {
    let doc = parse_json("{\"neg\":-1,\"frac\":1.5,\"big\":18446744073709551616}").unwrap();
    assert_eq!(get_u64(&doc, "neg"), None);
    assert_eq!(get_u64(&doc, "frac"), None);
    assert_eq!(get_u64(&doc, "big"), None);
}

#[test]
fn u32_fields_check_the_bound() {
    let doc = parse_json("{\"edge\":4294967295,\"over\":4294967296}").unwrap();
    assert_eq!(get_u32(&doc, "edge"), Some(u32::MAX));
    assert_eq!(get_u32(&doc, "over"), None);
}

#[test]
fn lookup_misses_on_non_objects() {
    let doc = parse_json("[1,2,3]").unwrap();
    assert!(doc.get("0").is_none());
    let doc = parse_json("\"text\"").unwrap();
    assert!(doc.get("len").is_none());
}

#[test]
fn duplicate_keys_are_resolved_by_the_parser() {
    // serde_json keeps the last value for a repeated key; the model sees
    // the already-resolved object
    let doc = parse_json("{\"a\":1,\"a\":2}").unwrap();
    assert_eq!(get_u64(&doc, "a"), Some(2));
}

#[test]
fn nested_documents_are_modeled() {
    let doc = parse_json("{\"outer\":{\"inner\":\"x\"}}").unwrap();
    let outer = doc.get("outer").unwrap();
    assert_eq!(get_string(outer, "inner"), Some("x".to_string()));
    assert!(matches!(outer, JsonValue::Object(_)));
}
