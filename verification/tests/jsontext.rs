use porkbun_rs::jsontext::{json_escape, json_string, u64_to_dec};

#[test]
fn decimal_rendering() {
    assert_eq!(u64_to_dec(0), "0");
    assert_eq!(u64_to_dec(7), "7");
    assert_eq!(u64_to_dec(600), "600");
    assert_eq!(u64_to_dec(106926659), "106926659");
    assert_eq!(u64_to_dec(u64::MAX), "18446744073709551615");
}

#[test]
fn escape_passes_plain_text_through() {
    assert_eq!(json_escape("example.com"), "example.com");
    assert_eq!(json_escape(""), "");
    assert_eq!(json_escape("düne"), "düne");
}

#[test]
fn escape_handles_specials() {
    assert_eq!(json_escape("a\"b"), "a\\\"b");
    assert_eq!(json_escape("a\\b"), "a\\\\b");
    assert_eq!(json_escape("a\nb\tc\rd"), "a\\nb\\tc\\rd");
    assert_eq!(json_escape("\u{1}\u{1f}"), "\\u0001\\u001f");
}

#[test]
fn json_string_round_trips_through_serde() {
    for s in ["plain", "with \"quotes\"", "back\\slash", "ctl\u{2}\n\t", "ünï©ödé"] {
        let lit = json_string(s);
        let v: serde_json::Value = serde_json::from_str(&lit).unwrap();
        assert_eq!(v.as_str().unwrap(), s);
    }
}
