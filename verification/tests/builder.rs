use porkbun_rs::client::{HTTPClient, HttpMethod};
use porkbun_rs::errors::PorkbunnError;
use porkbun_rs::porkbunn_client::{credentials_body, create_record_body, PorkbunnClient};

fn client() -> PorkbunnClient {
    PorkbunnClient::new("https://api.example.com/api/json/", "v3", "key", "secret")
}

#[test]
fn build_supported_methods() {
    let c = client();
    for m in [HttpMethod::Get, HttpMethod::Put, HttpMethod::Post, HttpMethod::Delete] {
        let req = c.build(m, "domain/listAll", None).unwrap();
        assert_eq!(req.method, m);
        assert_eq!(req.url, "https://api.example.com/api/json/v3/domain/listAll");
    }
}

#[test]
fn build_unsupported_method_is_rejected() {
    let c = client();
    for m in [
        HttpMethod::Head,
        HttpMethod::Options,
        HttpMethod::Connect,
        HttpMethod::Patch,
        HttpMethod::Trace,
    ] {
        let r = c.build(m, "domain/listAll", None);
        assert_eq!(r, Err(PorkbunnError::UnsupportedMethod));
    }
}

#[test]
fn build_default_body_injects_credentials() {
    let c = client();
    let req = c.build(HttpMethod::Post, "domain/listAll", None).unwrap();
    assert_eq!(req.body, "{\"apikey\":\"key\",\"secretapikey\":\"secret\"}");
}

#[test]
fn build_explicit_body_is_sent_verbatim() {
    let c = client();
    let req = c
        .build(HttpMethod::Post, "domain/listAll", Some("{\"x\":1}".to_string()))
        .unwrap();
    assert_eq!(req.body, "{\"x\":1}");
}

#[test]
fn build_content_type_is_json() {
    let c = client();
    let req = c.build(HttpMethod::Post, "domain/listAll", None).unwrap();
    assert_eq!(req.content_type(), "application/json");
}

#[test]
fn build_bad_base_is_url_error_before_method_check() {
    let c = PorkbunnClient::new("::::", "v3", "key", "secret");
    let r = c.build(HttpMethod::Head, "domain/listAll", None);
    assert_eq!(r, Err(PorkbunnError::URLParseError));
}

#[test]
fn inner_composes_and_checks_method() {
    let hc = HTTPClient::new("https://api.example.com/api/json/", "/v3/");
    let url = hc.inner(HttpMethod::Get, "/dns/retrieve/example.com").unwrap();
    assert_eq!(url, "https://api.example.com/api/json/v3/dns/retrieve/example.com");
    let r = hc.inner(HttpMethod::Trace, "dns/retrieve/example.com");
    assert_eq!(r, Err(PorkbunnError::UnsupportedMethod));
}

#[test]
fn credentials_body_escapes_specials() {
    let b = credentials_body("k\"1", "s\\2");
    assert_eq!(b, "{\"apikey\":\"k\\\"1\",\"secretapikey\":\"s\\\\2\"}");
    // and the result is real JSON holding the original strings
    let v: serde_json::Value = serde_json::from_str(&b).unwrap();
    assert_eq!(v.get("apikey").unwrap().as_str().unwrap(), "k\"1");
    assert_eq!(v.get("secretapikey").unwrap().as_str().unwrap(), "s\\2");
}

#[test]
fn create_record_body_exact_text() {
    let b = create_record_body("key", "secret", "www", "A", "1.2.3.4", 600);
    assert_eq!(
        b,
        "{\"apikey\":\"key\",\"content\":\"1.2.3.4\",\"name\":\"www\",\"secretapikey\":\"secret\",\"ttl\":600,\"type\":\"A\"}"
    );
    let v: serde_json::Value = serde_json::from_str(&b).unwrap();
    assert_eq!(v.get("ttl").unwrap().as_u64().unwrap(), 600);
    assert_eq!(v.get("type").unwrap().as_str().unwrap(), "A");
}

#[test]
fn operation_paths() {
    let c = client();
    let req = c.list_domains().unwrap();
    assert_eq!(req.url, "https://api.example.com/api/json/v3/domain/listAll");
    assert_eq!(req.method, HttpMethod::Post);

    let req = c.list_dns_records("example.com").unwrap();
    assert_eq!(req.url, "https://api.example.com/api/json/v3/dns/retrieve/example.com");

    let req = c.delete_dns_record("example.com", 42).unwrap();
    assert_eq!(req.url, "https://api.example.com/api/json/v3/dns/delete/example.com/42");
    assert_eq!(req.body, "{\"apikey\":\"key\",\"secretapikey\":\"secret\"}");

    let req = c.create_dns_record("example.com", "www", "A", "1.2.3.4", 600).unwrap();
    assert_eq!(req.url, "https://api.example.com/api/json/v3/dns/create/example.com");
}
