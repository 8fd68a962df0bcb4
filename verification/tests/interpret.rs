use porkbun_rs::client::{interpret, RawResponse};
use porkbun_rs::errors::PorkbunnError;
use porkbun_rs::porkbunn_client::{
    Domain, Record, ResponseCreateRecord, ResponseDeleteRecord, ResponseListDnsRecords,
    ResponseListDomains,
};

fn resp(status: u16, body: &str) -> RawResponse {
    RawResponse { status, body: body.to_string() }
}

#[test]
fn success_body_decodes_deep_equal() {
    let body = "{\"status\":\"SUCCESS\",\"records\":[{\"id\":\"101\",\"name\":\"www.example.com\",\"type\":\"A\",\"content\":\"1.2.3.4\",\"ttl\":\"600\",\"prio\":\"0\",\"notes\":null}]}";
    let r: ResponseListDnsRecords = interpret(&resp(200, body)).unwrap();
    let expected = ResponseListDnsRecords {
        status: "SUCCESS".to_string(),
        records: vec![Record {
            id: "101".to_string(),
            name: "www.example.com".to_string(),
            type_field: "A".to_string(),
            content: "1.2.3.4".to_string(),
            ttl: "600".to_string(),
            prio: Some("0".to_string()),
            notes: None,
        }],
    };
    assert_eq!(r, expected);
}

#[test]
fn not_found_maps_to_api_error() {
    let body = "{\"status\":\"ERROR\",\"message\":\"Invalid domain\"}";
    let r: Result<ResponseListDnsRecords, PorkbunnError> = interpret(&resp(404, body));
    match r {
        Err(PorkbunnError::APIResponseError { status, message }) => {
            assert_eq!(status, "ERROR");
            assert_eq!(message, "Invalid domain");
        }
        other => panic!("expected APIResponseError, got {:?}", other),
    }
}

#[test]
fn error_body_without_fields_keeps_empty_strings() {
    let r: Result<ResponseDeleteRecord, PorkbunnError> = interpret(&resp(500, "{}"));
    assert_eq!(
        r,
        Err(PorkbunnError::APIResponseError { status: String::new(), message: String::new() })
    );
}

#[test]
fn error_body_with_wrong_field_type_is_decode_failure() {
    let r: Result<ResponseDeleteRecord, PorkbunnError> =
        interpret(&resp(500, "{\"status\":5,\"message\":\"x\"}"));
    assert_eq!(r, Err(PorkbunnError::SerdeError));
}

#[test]
fn non_json_bodies_are_decode_failures() {
    let r: Result<ResponseDeleteRecord, PorkbunnError> = interpret(&resp(200, "not json"));
    assert_eq!(r, Err(PorkbunnError::SerdeError));
    let r: Result<ResponseDeleteRecord, PorkbunnError> = interpret(&resp(500, "not json"));
    assert_eq!(r, Err(PorkbunnError::SerdeError));
}

#[test]
fn success_body_of_wrong_shape_is_decode_failure() {
    let r: Result<ResponseCreateRecord, PorkbunnError> =
        interpret(&resp(200, "{\"status\":\"SUCCESS\"}"));
    assert_eq!(r, Err(PorkbunnError::SerdeError));
    let r: Result<ResponseCreateRecord, PorkbunnError> =
        interpret(&resp(200, "{\"id\":\"not a number\",\"status\":\"SUCCESS\"}"));
    assert_eq!(r, Err(PorkbunnError::SerdeError));
}

#[test]
fn create_record_response_decodes() {
    let r: ResponseCreateRecord =
        interpret(&resp(201, "{\"id\":106926659,\"status\":\"SUCCESS\"}")).unwrap();
    assert_eq!(r, ResponseCreateRecord { id: 106926659, status: "SUCCESS".to_string() });
}

#[test]
fn delete_record_response_decodes() {
    let r: ResponseDeleteRecord = interpret(&resp(200, "{\"status\":\"SUCCESS\"}")).unwrap();
    assert_eq!(r, ResponseDeleteRecord { status: "SUCCESS".to_string() });
}

#[test]
fn list_domains_response_decodes() {
    let body = "{\"status\":\"SUCCESS\",\"domains\":[{\"autoRenew\":\"1\",\"createDate\":\"2024-01-01\",\"domain\":\"example.com\",\"expireDate\":\"2025-01-01\",\"notLocal\":0,\"status\":null,\"tld\":\"com\",\"whoisPrivacy\":1,\"securityLock\":0}]}";
    let r: ResponseListDomains = interpret(&resp(200, body)).unwrap();
    let expected = ResponseListDomains {
        status: "SUCCESS".to_string(),
        domains: vec![Domain {
            auto_renew: "1".to_string(),
            create_date: "2024-01-01".to_string(),
            domain: "example.com".to_string(),
            expire_date: "2025-01-01".to_string(),
            not_local: 0,
            status: None,
            tld: "com".to_string(),
            whois_privacy: 1,
            security_lock: 0,
        }],
    };
    assert_eq!(r, expected);
}

#[test]
fn numeric_field_too_large_for_u32_is_decode_failure() {
    let body = "{\"status\":\"SUCCESS\",\"domains\":[{\"autoRenew\":\"1\",\"createDate\":\"d\",\"domain\":\"e\",\"expireDate\":\"d\",\"notLocal\":4294967296,\"status\":null,\"tld\":\"com\",\"whoisPrivacy\":0,\"securityLock\":0}]}";
    let r: Result<ResponseListDomains, PorkbunnError> = interpret(&resp(200, body));
    assert_eq!(r, Err(PorkbunnError::SerdeError));
}

#[test]
fn success_statuses_cover_the_2xx_range() {
    // 299 is still success, 300 and 199 are not
    let ok: ResponseDeleteRecord = interpret(&resp(299, "{\"status\":\"S\"}")).unwrap();
    assert_eq!(ok.status, "S");
    let r: Result<ResponseDeleteRecord, PorkbunnError> = interpret(&resp(300, "{}"));
    assert!(matches!(r, Err(PorkbunnError::APIResponseError { .. })));
    let r: Result<ResponseDeleteRecord, PorkbunnError> = interpret(&resp(199, "{}"));
    assert!(matches!(r, Err(PorkbunnError::APIResponseError { .. })));
}
