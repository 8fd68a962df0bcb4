use porkbun_rs::client::{interpret, HttpMethod, OutboundRequest, RawResponse};
use porkbun_rs::errors::PorkbunnError;
use porkbun_rs::porkbunn_client::{PorkbunnClient, ResponseCreateRecord, ResponseListDomains};

/// A transport double: counts calls and answers with a canned response.
struct MockTransport {
    calls: usize,
    status: u16,
    body: &'static str,
}

impl MockTransport {
    fn new(status: u16, body: &'static str) -> MockTransport {
        MockTransport { calls: 0, status, body }
    }

    fn execute(&mut self, _req: &OutboundRequest) -> RawResponse {
        self.calls += 1;
        RawResponse { status: self.status, body: self.body.to_string() }
    }
}

#[test]
fn list_domains_end_to_end() {
    let client = PorkbunnClient::new("https://api.example.com/api/json/", "v3", "key", "secret");
    let mut transport = MockTransport::new(200, "{\"status\":\"SUCCESS\",\"domains\":[]}");

    let req = client.list_domains().unwrap();
    assert_eq!(req.method, HttpMethod::Post);
    assert_eq!(req.url, "https://api.example.com/api/json/v3/domain/listAll");
    assert_eq!(req.body, "{\"apikey\":\"key\",\"secretapikey\":\"secret\"}");

    let raw = transport.execute(&req);
    let r: ResponseListDomains = interpret(&raw).unwrap();
    assert_eq!(r.status, "SUCCESS");
    assert!(r.domains.is_empty());
    assert_eq!(transport.calls, 1);
}

#[test]
fn create_record_api_failure_propagates_without_retry() {
    let client = PorkbunnClient::new("https://api.example.com/api/json/", "v3", "key", "secret");
    let mut transport = MockTransport::new(
        400,
        "{\"status\":\"ERROR\",\"message\":\"Invalid record type\"}",
    );

    let req = client.create_dns_record("example.com", "www", "A", "1.2.3.4", 600).unwrap();
    assert_eq!(req.url, "https://api.example.com/api/json/v3/dns/create/example.com");

    let raw = transport.execute(&req);
    let r: Result<ResponseCreateRecord, PorkbunnError> = interpret(&raw);
    assert_eq!(
        r,
        Err(PorkbunnError::APIResponseError {
            status: "ERROR".to_string(),
            message: "Invalid record type".to_string(),
        })
    );
    // exactly one call, zero retries
    assert_eq!(transport.calls, 1);
}

#[test]
fn unsupported_method_never_reaches_the_transport() {
    let client = PorkbunnClient::new("https://api.example.com/api/json/", "v3", "key", "secret");
    let mut transport = MockTransport::new(200, "{}");

    let r = client.build(HttpMethod::Patch, "domain/listAll", None);
    assert_eq!(r, Err(PorkbunnError::UnsupportedMethod));
    if let Ok(req) = r {
        transport.execute(&req);
    }
    assert_eq!(transport.calls, 0);
}
