use porkbun_rs::errors::PorkbunnError;
use porkbun_rs::urlcomp::compose;

#[test]
fn compose_plain_triple() {
    let r = compose("https://api.example.com/api/json/", "v3", "domain/listAll").unwrap();
    assert_eq!(r, "https://api.example.com/api/json/v3/domain/listAll");
}

#[test]
fn compose_strips_version_slashes() {
    let plain = compose("https://api.example.com/api/json/", "v3", "domain/listAll").unwrap();
    for version in ["/v3", "v3/", "/v3/", "v/3", "//v//3//"] {
        let r = compose("https://api.example.com/api/json/", version, "domain/listAll").unwrap();
        assert_eq!(r, plain);
    }
}

#[test]
fn compose_strips_leading_path_slashes() {
    let plain = compose("https://api.example.com/api/json/", "v3", "domain/listAll").unwrap();
    let r = compose("https://api.example.com/api/json/", "v3", "/domain/listAll").unwrap();
    assert_eq!(r, plain);
    let r = compose("https://api.example.com/api/json/", "v3", "///domain/listAll").unwrap();
    assert_eq!(r, plain);
}

#[test]
fn compose_empty_path_is_version_root() {
    let r = compose("https://api.example.com/api/json/", "v3", "").unwrap();
    assert_eq!(r, "https://api.example.com/api/json/v3/");
    let r = compose("https://api.example.com/api/json/", "v3", "/").unwrap();
    assert_eq!(r, "https://api.example.com/api/json/v3/");
}

#[test]
fn compose_is_idempotent() {
    // Composing the same triple twice yields byte-identical endpoints.
    let a = compose("https://api.example.com/api/json/", "v3", "dns/retrieve/example.com").unwrap();
    let b = compose("https://api.example.com/api/json/", "v3", "dns/retrieve/example.com").unwrap();
    assert_eq!(a.as_bytes(), b.as_bytes());
}

#[test]
fn compose_empty_version_resolves_to_site_root() {
    // a version with no characters left after normalization becomes the
    // bare segment "/", which relative-join resolves at the site root
    let r = compose("https://api.example.com/api/json/", "", "x").unwrap();
    assert_eq!(r, "https://api.example.com/x");
    let r = compose("https://api.example.com/api/json/", "///", "x").unwrap();
    assert_eq!(r, "https://api.example.com/x");
}

#[test]
fn compose_rejects_malformed_base() {
    let r = compose("not a url", "v3", "domain/listAll");
    assert_eq!(r, Err(PorkbunnError::URLParseError));
    let r = compose("", "v3", "domain/listAll");
    assert_eq!(r, Err(PorkbunnError::URLParseError));
}

#[test]
fn compose_base_without_path_gains_root_slash() {
    let r = compose("https://example.com", "v3", "x").unwrap();
    assert_eq!(r, "https://example.com/v3/x");
}

#[test]
fn compose_normalizes_the_base() {
    // scheme and host are lowercased by URL normalization; the path keeps
    // its case
    let r = compose("HTTPS://API.Example.COM/Api/Json/", "v3", "domain/listAll").unwrap();
    assert_eq!(r, "https://api.example.com/Api/Json/v3/domain/listAll");
}

#[test]
fn compose_base_without_trailing_slash_drops_file_segment() {
    // Relative-URL join semantics: without a trailing slash the last
    // segment of the base is a "file" name and is replaced.
    let r = compose("https://api.example.com/api/json", "v3", "domain/listAll").unwrap();
    assert_eq!(r, "https://api.example.com/api/v3/domain/listAll");
}
