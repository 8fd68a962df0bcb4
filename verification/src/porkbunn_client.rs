//! The Porkbun operations: named requests and their typed responses.
//!
//! Each operation builds one [`OutboundRequest`] — the composed endpoint,
//! the POST verb the provider uses uniformly, and the JSON body. A call
//! without an explicit payload authenticates through the implicit
//! credentials-only body `{"apikey":..,"secretapikey":..}`; a call with a
//! payload (record creation) embeds the credentials alongside its other
//! fields, and the body text is pinned down verbatim by the contracts.
//! Sending the request is the transport's concern; the raw response comes
//! back through [`crate::client::interpret`], and each response type's
//! decoding is specified exactly against the document model of
//! [`crate::jsondoc`].

use vstd::prelude::*;
use crate::client::{ApiResponse, HTTPClient, HttpMethod, OutboundRequest, method_supported};
use crate::errors::PorkbunnError;
use crate::jsondoc::{
    get_opt_string, get_string, get_u32, get_u64, opt_str_view, spec_get, spec_opt_string_field,
    spec_string_field, spec_u32_field, spec_u64_field, JsonValue,
};
use crate::jsontext::{json_string, spec_dec, spec_json_string, u64_to_dec};
use crate::urlcomp::compose_spec;

verus! {

/// The response to listing the account's domains.
#[derive(Default, Debug, Clone, PartialEq)]
pub struct ResponseListDomains {
    pub status: String,
    pub domains: Vec<Domain>,
}

/// The response to creating a DNS record: the new record's numeric id.
#[derive(Default, Debug, Clone, PartialEq)]
pub struct ResponseCreateRecord {
    pub id: u64,
    pub status: String,
}

/// The response to deleting a DNS record.
#[derive(Default, Debug, Clone, PartialEq)]
pub struct ResponseDeleteRecord {
    pub status: String,
}

/// The response to listing the DNS records of a domain.
#[derive(Default, Debug, Clone, PartialEq)]
pub struct ResponseListDnsRecords {
    pub status: String,
    pub records: Vec<Record>,
}

/// One DNS record as the provider reports it (ids and TTLs come back as
/// strings on the wire).
#[derive(Default, Debug, Clone, PartialEq)]
pub struct Record {
    pub id: String,
    pub name: String,
    pub type_field: String,
    pub content: String,
    pub ttl: String,
    pub prio: Option<String>,
    pub notes: Option<String>,
}

/// One domain of the account as the provider reports it.
#[derive(Default, Debug, Clone, PartialEq)]
pub struct Domain {
    pub auto_renew: String,
    pub create_date: String,
    pub domain: String,
    pub expire_date: String,
    pub not_local: u32,
    pub status: Option<String>,
    pub tld: String,
    pub whois_privacy: u32,
    pub security_lock: u32,
}

/// The mathematical content of a [`Domain`].
#[verifier::ext_equal]
pub ghost struct DomainView {
    pub auto_renew: Seq<char>,
    pub create_date: Seq<char>,
    pub domain: Seq<char>,
    pub expire_date: Seq<char>,
    pub not_local: u32,
    pub status: Option<Seq<char>>,
    pub tld: Seq<char>,
    pub whois_privacy: u32,
    pub security_lock: u32,
}

impl View for Domain {
    type V = DomainView;

    open spec fn view(&self) -> DomainView {
        DomainView {
            auto_renew: self.auto_renew@,
            create_date: self.create_date@,
            domain: self.domain@,
            expire_date: self.expire_date@,
            not_local: self.not_local,
            status: opt_str_view(self.status),
            tld: self.tld@,
            whois_privacy: self.whois_privacy,
            security_lock: self.security_lock,
        }
    }
}

/// The mathematical content of a [`Record`].
#[verifier::ext_equal]
pub ghost struct RecordView {
    pub id: Seq<char>,
    pub name: Seq<char>,
    pub type_field: Seq<char>,
    pub content: Seq<char>,
    pub ttl: Seq<char>,
    pub prio: Option<Seq<char>>,
    pub notes: Option<Seq<char>>,
}

impl View for Record {
    type V = RecordView;

    open spec fn view(&self) -> RecordView {
        RecordView {
            id: self.id@,
            name: self.name@,
            type_field: self.type_field@,
            content: self.content@,
            ttl: self.ttl@,
            prio: opt_str_view(self.prio),
            notes: opt_str_view(self.notes),
        }
    }
}

/// The mathematical content of a [`ResponseListDomains`].
#[verifier::ext_equal]
pub ghost struct ResponseListDomainsView {
    pub status: Seq<char>,
    pub domains: Seq<DomainView>,
}

impl View for ResponseListDomains {
    type V = ResponseListDomainsView;

    open spec fn view(&self) -> ResponseListDomainsView {
        ResponseListDomainsView {
            status: self.status@,
            domains: self.domains@.map_values(|d: Domain| d@),
        }
    }
}

/// The mathematical content of a [`ResponseCreateRecord`].
#[verifier::ext_equal]
pub ghost struct ResponseCreateRecordView {
    pub id: u64,
    pub status: Seq<char>,
}

impl View for ResponseCreateRecord {
    type V = ResponseCreateRecordView;

    open spec fn view(&self) -> ResponseCreateRecordView {
        ResponseCreateRecordView { id: self.id, status: self.status@ }
    }
}

/// The mathematical content of a [`ResponseDeleteRecord`].
#[verifier::ext_equal]
pub ghost struct ResponseDeleteRecordView {
    pub status: Seq<char>,
}

impl View for ResponseDeleteRecord {
    type V = ResponseDeleteRecordView;

    open spec fn view(&self) -> ResponseDeleteRecordView {
        ResponseDeleteRecordView { status: self.status@ }
    }
}

/// The mathematical content of a [`ResponseListDnsRecords`].
#[verifier::ext_equal]
pub ghost struct ResponseListDnsRecordsView {
    pub status: Seq<char>,
    pub records: Seq<RecordView>,
}

impl View for ResponseListDnsRecords {
    type V = ResponseListDnsRecordsView;

    open spec fn view(&self) -> ResponseListDnsRecordsView {
        ResponseListDnsRecordsView {
            status: self.status@,
            records: self.records@.map_values(|r: Record| r@),
        }
    }
}

/// What decoding one domain entry yields (camel-cased keys on the wire):
/// every field must be present with its type, except `status`, which may
/// be absent or `null`.
pub open spec fn spec_decode_domain(v: JsonValue) -> Option<DomainView> {
    match (
        spec_string_field(v, "autoRenew"@),
        spec_string_field(v, "createDate"@),
        spec_string_field(v, "domain"@),
        spec_string_field(v, "expireDate"@),
        spec_u32_field(v, "notLocal"@),
    ) {
        (Some(auto_renew), Some(create_date), Some(domain), Some(expire_date), Some(not_local)) => match (
            spec_opt_string_field(v, "status"@),
            spec_string_field(v, "tld"@),
            spec_u32_field(v, "whoisPrivacy"@),
            spec_u32_field(v, "securityLock"@),
        ) {
            (Some(status), Some(tld), Some(whois_privacy), Some(security_lock)) => Some(
                DomainView {
                    auto_renew,
                    create_date,
                    domain,
                    expire_date,
                    not_local,
                    status,
                    tld,
                    whois_privacy,
                    security_lock,
                },
            ),
            _ => None,
        },
        _ => None,
    }
}

/// What decoding one DNS record entry yields (the record type comes under
/// the key `type`; `prio` and `notes` may be absent or `null`).
pub open spec fn spec_decode_record(v: JsonValue) -> Option<RecordView> {
    match (
        spec_string_field(v, "id"@),
        spec_string_field(v, "name"@),
        spec_string_field(v, "type"@),
        spec_string_field(v, "content"@),
    ) {
        (Some(id), Some(name), Some(type_field), Some(content)) => match (
            spec_string_field(v, "ttl"@),
            spec_opt_string_field(v, "prio"@),
            spec_opt_string_field(v, "notes"@),
        ) {
            (Some(ttl), Some(prio), Some(notes)) => Some(
                RecordView { id, name, type_field, content, ttl, prio, notes },
            ),
            _ => None,
        },
        _ => None,
    }
}

/// What decoding an array of domain entries yields: every element must
/// decode, in order.
pub open spec fn spec_decode_domains(elems: Seq<JsonValue>) -> Option<Seq<DomainView>>
    decreases elems.len(),
{
    if elems.len() == 0 {
        Some(Seq::empty())
    } else {
        match (spec_decode_domains(elems.drop_last()), spec_decode_domain(elems.last())) {
            (Some(pre), Some(d)) => Some(pre.push(d)),
            _ => None,
        }
    }
}

/// What decoding an array of record entries yields: every element must
/// decode, in order.
pub open spec fn spec_decode_records(elems: Seq<JsonValue>) -> Option<Seq<RecordView>>
    decreases elems.len(),
{
    if elems.len() == 0 {
        Some(Seq::empty())
    } else {
        match (spec_decode_records(elems.drop_last()), spec_decode_record(elems.last())) {
            (Some(pre), Some(r)) => Some(pre.push(r)),
            _ => None,
        }
    }
}

/// One undecodable element makes the whole domain array undecodable.
proof fn lemma_decode_domains_none(elems: Seq<JsonValue>, i: int)
    requires
        0 <= i < elems.len(),
        spec_decode_domain(elems[i]) is None,
    ensures
        spec_decode_domains(elems) is None,
    decreases elems.len(),
{
    if i < elems.len() - 1 {
        assert(elems.drop_last()[i] == elems[i]);
        lemma_decode_domains_none(elems.drop_last(), i);
    }
}

/// One undecodable element makes the whole record array undecodable.
proof fn lemma_decode_records_none(elems: Seq<JsonValue>, i: int)
    requires
        0 <= i < elems.len(),
        spec_decode_record(elems[i]) is None,
    ensures
        spec_decode_records(elems) is None,
    decreases elems.len(),
{
    if i < elems.len() - 1 {
        assert(elems.drop_last()[i] == elems[i]);
        lemma_decode_records_none(elems.drop_last(), i);
    }
}

/// Decodes one domain entry.
fn decode_domain(v: &JsonValue) -> (r: Option<Domain>)
    ensures
        (match r {
            Some(d) => spec_decode_domain(*v) == Some(d@),
            None => spec_decode_domain(*v) is None,
        }),
{
    let auto_renew = match get_string(v, "autoRenew") {
        Some(x) => x,
        None => {
            return None;
        },
    };
    let create_date = match get_string(v, "createDate") {
        Some(x) => x,
        None => {
            return None;
        },
    };
    let domain = match get_string(v, "domain") {
        Some(x) => x,
        None => {
            return None;
        },
    };
    let expire_date = match get_string(v, "expireDate") {
        Some(x) => x,
        None => {
            return None;
        },
    };
    let not_local = match get_u32(v, "notLocal") {
        Some(x) => x,
        None => {
            return None;
        },
    };
    let status = match get_opt_string(v, "status") {
        Some(x) => x,
        None => {
            return None;
        },
    };
    let tld = match get_string(v, "tld") {
        Some(x) => x,
        None => {
            return None;
        },
    };
    let whois_privacy = match get_u32(v, "whoisPrivacy") {
        Some(x) => x,
        None => {
            return None;
        },
    };
    let security_lock = match get_u32(v, "securityLock") {
        Some(x) => x,
        None => {
            return None;
        },
    };
    Some(
        Domain {
            auto_renew,
            create_date,
            domain,
            expire_date,
            not_local,
            status,
            tld,
            whois_privacy,
            security_lock,
        },
    )
}

/// Decodes one DNS record entry.
fn decode_record(v: &JsonValue) -> (r: Option<Record>)
    ensures
        (match r {
            Some(rec) => spec_decode_record(*v) == Some(rec@),
            None => spec_decode_record(*v) is None,
        }),
{
    let id = match get_string(v, "id") {
        Some(x) => x,
        None => {
            return None;
        },
    };
    let name = match get_string(v, "name") {
        Some(x) => x,
        None => {
            return None;
        },
    };
    let type_field = match get_string(v, "type") {
        Some(x) => x,
        None => {
            return None;
        },
    };
    let content = match get_string(v, "content") {
        Some(x) => x,
        None => {
            return None;
        },
    };
    let ttl = match get_string(v, "ttl") {
        Some(x) => x,
        None => {
            return None;
        },
    };
    let prio = match get_opt_string(v, "prio") {
        Some(x) => x,
        None => {
            return None;
        },
    };
    let notes = match get_opt_string(v, "notes") {
        Some(x) => x,
        None => {
            return None;
        },
    };
    Some(Record { id, name, type_field, content, ttl, prio, notes })
}

/// What decoding the list-domains response yields: a `status` string and
/// a `domains` array whose every element decodes.
pub open spec fn spec_decode_list_domains(v: JsonValue) -> Option<ResponseListDomainsView> {
    match (spec_string_field(v, "status"@), spec_get(v, "domains"@)) {
        (Some(st), Some(JsonValue::Array(es))) => match spec_decode_domains(es@) {
            Some(ds) => Some(ResponseListDomainsView { status: st, domains: ds }),
            None => None,
        },
        _ => None,
    }
}

/// What decoding the list-records response yields: a `status` string and
/// a `records` array whose every element decodes.
pub open spec fn spec_decode_list_records(v: JsonValue) -> Option<ResponseListDnsRecordsView> {
    match (spec_string_field(v, "status"@), spec_get(v, "records"@)) {
        (Some(st), Some(JsonValue::Array(es))) => match spec_decode_records(es@) {
            Some(rs) => Some(ResponseListDnsRecordsView { status: st, records: rs }),
            None => None,
        },
        _ => None,
    }
}

/// What decoding the create-record response yields: a numeric `id` and a
/// `status` string.
pub open spec fn spec_decode_create_record(v: JsonValue) -> Option<ResponseCreateRecordView> {
    match (spec_u64_field(v, "id"@), spec_string_field(v, "status"@)) {
        (Some(id), Some(st)) => Some(ResponseCreateRecordView { id, status: st }),
        _ => None,
    }
}

/// What decoding the delete-record response yields: a `status` string.
pub open spec fn spec_decode_delete_record(v: JsonValue) -> Option<ResponseDeleteRecordView> {
    match spec_string_field(v, "status"@) {
        Some(st) => Some(ResponseDeleteRecordView { status: st }),
        None => None,
    }
}

impl ApiResponse for ResponseListDomains {
    open spec fn spec_decode(v: JsonValue) -> Option<ResponseListDomainsView> {
        spec_decode_list_domains(v)
    }

    fn from_json(v: &JsonValue) -> (r: Option<Self>) {
        let status = match get_string(v, "status") {
            Some(s) => s,
            None => {
                return None;
            },
        };
        let arr = match v.get("domains") {
            Some(m) => match m {
                JsonValue::Array(elems) => elems,
                _ => {
                    return None;
                },
            },
            None => {
                return None;
            },
        };
        let ghost gelems = arr@;
        let n = arr.len();
        let mut domains: Vec<Domain> = Vec::new();
        let mut i: usize = 0;
        while i < n
            invariant
                n == gelems.len(),
                gelems == arr@,
                i <= n,
                spec_get(*v, "domains"@) == Some(JsonValue::Array(*arr)),
                spec_decode_domains(gelems.take(i as int)) == Some(
                    domains@.map_values(|d: Domain| d@),
                ),
            decreases n - i,
        {
            let d = match decode_domain(&arr[i]) {
                Some(d) => d,
                None => {
                    proof {
                        lemma_decode_domains_none(gelems, i as int);
                    }
                    return None;
                },
            };
            domains.push(d);
            proof {
                assert(gelems.take(i + 1 as int).drop_last() =~= gelems.take(i as int));
                assert(gelems.take(i + 1 as int).last() == gelems[i as int]);
                assert(domains@.map_values(|d: Domain| d@) =~= domains@.drop_last().map_values(
                    |d: Domain| d@,
                ).push(d@));
            }
            i = i + 1;
        }
        proof {
            assert(gelems.take(n as int) =~= gelems);
        }
        Some(ResponseListDomains { status, domains })
    }
}

impl ApiResponse for ResponseListDnsRecords {
    open spec fn spec_decode(v: JsonValue) -> Option<ResponseListDnsRecordsView> {
        spec_decode_list_records(v)
    }

    fn from_json(v: &JsonValue) -> (r: Option<Self>) {
        let status = match get_string(v, "status") {
            Some(s) => s,
            None => {
                return None;
            },
        };
        let arr = match v.get("records") {
            Some(m) => match m {
                JsonValue::Array(elems) => elems,
                _ => {
                    return None;
                },
            },
            None => {
                return None;
            },
        };
        let ghost gelems = arr@;
        let n = arr.len();
        let mut records: Vec<Record> = Vec::new();
        let mut i: usize = 0;
        while i < n
            invariant
                n == gelems.len(),
                gelems == arr@,
                i <= n,
                spec_get(*v, "records"@) == Some(JsonValue::Array(*arr)),
                spec_decode_records(gelems.take(i as int)) == Some(
                    records@.map_values(|r: Record| r@),
                ),
            decreases n - i,
        {
            let rec = match decode_record(&arr[i]) {
                Some(rec) => rec,
                None => {
                    proof {
                        lemma_decode_records_none(gelems, i as int);
                    }
                    return None;
                },
            };
            records.push(rec);
            proof {
                assert(gelems.take(i + 1 as int).drop_last() =~= gelems.take(i as int));
                assert(gelems.take(i + 1 as int).last() == gelems[i as int]);
                assert(records@.map_values(|r: Record| r@) =~= records@.drop_last().map_values(
                    |r: Record| r@,
                ).push(rec@));
            }
            i = i + 1;
        }
        proof {
            assert(gelems.take(n as int) =~= gelems);
        }
        Some(ResponseListDnsRecords { status, records })
    }
}

impl ApiResponse for ResponseCreateRecord {
    open spec fn spec_decode(v: JsonValue) -> Option<ResponseCreateRecordView> {
        spec_decode_create_record(v)
    }

    fn from_json(v: &JsonValue) -> (r: Option<Self>) {
        let id = match get_u64(v, "id") {
            Some(x) => x,
            None => {
                return None;
            },
        };
        let status = match get_string(v, "status") {
            Some(s) => s,
            None => {
                return None;
            },
        };
        Some(ResponseCreateRecord { id, status })
    }
}

impl ApiResponse for ResponseDeleteRecord {
    open spec fn spec_decode(v: JsonValue) -> Option<ResponseDeleteRecordView> {
        spec_decode_delete_record(v)
    }

    fn from_json(v: &JsonValue) -> (r: Option<Self>) {
        let status = match get_string(v, "status") {
            Some(s) => s,
            None => {
                return None;
            },
        };
        Some(ResponseDeleteRecord { status })
    }
}

/// The implicit credentials-only body of a call without an explicit
/// payload.
pub open spec fn spec_credentials_body(key: Seq<char>, secret: Seq<char>) -> Seq<char> {
    "{\"apikey\":"@ + spec_json_string(key) + ",\"secretapikey\":"@ + spec_json_string(secret)
        + "}"@
}

/// The record-creation payload: credentials embedded alongside the record
/// fields, keys in alphabetical order.
pub open spec fn spec_create_record_body(
    key: Seq<char>,
    secret: Seq<char>,
    name: Seq<char>,
    record_type: Seq<char>,
    content: Seq<char>,
    ttl: int,
) -> Seq<char> {
    "{\"apikey\":"@ + spec_json_string(key) + ",\"content\":"@ + spec_json_string(content)
        + ",\"name\":"@ + spec_json_string(name) + ",\"secretapikey\":"@ + spec_json_string(secret)
        + ",\"ttl\":"@ + spec_dec(ttl) + ",\"type\":"@ + spec_json_string(record_type) + "}"@
}

/// Builds the credentials-only JSON body.
pub fn credentials_body(key: &str, secret: &str) -> (r: String)
    ensures
        r@ == spec_credentials_body(key@, secret@),
{
    let mut out = "{\"apikey\":".to_owned();
    let k = json_string(key);
    out.append(k.as_str());
    out.append(",\"secretapikey\":");
    let s = json_string(secret);
    out.append(s.as_str());
    out.append("}");
    proof {
        assert(out@ =~= spec_credentials_body(key@, secret@));
    }
    out
}

/// Builds the record-creation JSON body.
pub fn create_record_body(
    key: &str,
    secret: &str,
    name: &str,
    record_type: &str,
    content: &str,
    ttl: u32,
) -> (r: String)
    ensures
        r@ == spec_create_record_body(key@, secret@, name@, record_type@, content@, ttl as int),
{
    let mut out = "{\"apikey\":".to_owned();
    let k = json_string(key);
    out.append(k.as_str());
    out.append(",\"content\":");
    let c = json_string(content);
    out.append(c.as_str());
    out.append(",\"name\":");
    let n = json_string(name);
    out.append(n.as_str());
    out.append(",\"secretapikey\":");
    let s = json_string(secret);
    out.append(s.as_str());
    out.append(",\"ttl\":");
    let t = u64_to_dec(ttl as u64);
    out.append(t.as_str());
    out.append(",\"type\":");
    let ty = json_string(record_type);
    out.append(ty.as_str());
    out.append("}");
    proof {
        assert(out@ =~= spec_create_record_body(
            key@,
            secret@,
            name@,
            record_type@,
            content@,
            ttl as int,
        ));
    }
    out
}

/// A client for the Porkbun API: the HTTP configuration plus the
/// credential pair, all immutable after construction.
pub struct PorkbunnClient {
    pub http_client: HTTPClient,
    pub api_key: String,
    pub api_secret: String,
}

/// The body an operation sends: the explicit payload when one was given,
/// the credentials-only body otherwise.
pub open spec fn body_or_credentials(c: PorkbunnClient, body: Option<Seq<char>>) -> Seq<char> {
    match body {
        Some(b) => b,
        None => spec_credentials_body(c.api_key@, c.api_secret@),
    }
}

/// What building a request for path `path` with verb `m` and optional
/// payload `body` yields: the URL steps fail with `URLParseError`, an
/// unsupported verb fails with `UnsupportedMethod` and sends nothing, and
/// otherwise the request carries the composed endpoint and the chosen
/// body, exactly.
pub open spec fn built_req(
    c: PorkbunnClient,
    m: HttpMethod,
    path: Seq<char>,
    body: Option<Seq<char>>,
    r: Result<OutboundRequest, PorkbunnError>,
) -> bool {
    match compose_spec(c.http_client.base_url@, c.http_client.version@, path) {
        None => r == Err::<OutboundRequest, PorkbunnError>(PorkbunnError::URLParseError),
        Some(u) => if method_supported(m) {
            r matches Ok(q) && q.method == m && q.url@ == u && q.body@ == body_or_credentials(
                c,
                body,
            )
        } else {
            r == Err::<OutboundRequest, PorkbunnError>(PorkbunnError::UnsupportedMethod)
        },
    }
}

impl PorkbunnClient {
    /// Creates a client from the base URL, the API version segment, and
    /// the credential pair. The version is normalized here, once.
    pub fn new(base_url: &str, version: &str, api_key: &str, api_secret: &str) -> (c:
        PorkbunnClient)
        ensures
            c.http_client.base_url@ == base_url@,
            c.http_client.version@ == crate::urlcomp::norm_version(version@),
            c.api_key@ == api_key@,
            c.api_secret@ == api_secret@,
    {
        PorkbunnClient {
            http_client: HTTPClient::new(base_url, version),
            api_key: api_key.to_owned(),
            api_secret: api_secret.to_owned(),
        }
    }

    /// Builds the outbound request for one call: composes the endpoint,
    /// checks the verb, and attaches the payload — or, when none is given,
    /// the implicit credentials-only body.
    pub fn build(&self, method: HttpMethod, path: &str, body: Option<String>) -> (r: Result<
        OutboundRequest,
        PorkbunnError,
    >)
        ensures
            built_req(*self, method, path@, crate::urlcomp::opt_view(body), r),
    {
        let url = self.http_client.inner(method, path)?;
        let body = match body {
            Some(b) => b,
            None => credentials_body(self.api_key.as_str(), self.api_secret.as_str()),
        };
        Ok(OutboundRequest { method, url, body })
    }

    /// The request that lists the DNS records of `name`: a POST to
    /// `dns/retrieve/{name}` with the credentials-only body.
    pub fn list_dns_records(&self, name: &str) -> (r: Result<OutboundRequest, PorkbunnError>)
        ensures
            built_req(*self, HttpMethod::Post, "dns/retrieve/"@ + name@, None, r),
    {
        let mut path = "dns/retrieve/".to_owned();
        path.append(name);
        self.build(HttpMethod::Post, path.as_str(), None)
    }

    /// The request that creates a DNS record under `domain`: a POST to
    /// `dns/create/{domain}` whose payload embeds the credentials, the
    /// record name, type, content and TTL.
    pub fn create_dns_record(
        &self,
        domain: &str,
        name: &str,
        record_type: &str,
        ip_address: &str,
        ttl: u32,
    ) -> (r: Result<OutboundRequest, PorkbunnError>)
        ensures
            built_req(
                *self,
                HttpMethod::Post,
                "dns/create/"@ + domain@,
                Some(
                    spec_create_record_body(
                        self.api_key@,
                        self.api_secret@,
                        name@,
                        record_type@,
                        ip_address@,
                        ttl as int,
                    ),
                ),
                r,
            ),
    {
        let mut path = "dns/create/".to_owned();
        path.append(domain);
        let payload = create_record_body(
            self.api_key.as_str(),
            self.api_secret.as_str(),
            name,
            record_type,
            ip_address,
            ttl,
        );
        self.build(HttpMethod::Post, path.as_str(), Some(payload))
    }

    /// The request that deletes record `id` under `domain`: a POST to
    /// `dns/delete/{domain}/{id}` with the credentials-only body.
    pub fn delete_dns_record(&self, domain: &str, id: u64) -> (r: Result<
        OutboundRequest,
        PorkbunnError,
    >)
        ensures
            built_req(
                *self,
                HttpMethod::Post,
                "dns/delete/"@ + domain@ + "/"@ + spec_dec(id as int),
                None,
                r,
            ),
    {
        let mut path = "dns/delete/".to_owned();
        path.append(domain);
        path.append("/");
        let id_text = u64_to_dec(id);
        path.append(id_text.as_str());
        self.build(HttpMethod::Post, path.as_str(), None)
    }

    /// The request that lists the account's domains: a POST to
    /// `domain/listAll` with the credentials-only body.
    pub fn list_domains(&self) -> (r: Result<OutboundRequest, PorkbunnError>)
        ensures
            built_req(*self, HttpMethod::Post, "domain/listAll"@, None, r),
    {
        self.build(HttpMethod::Post, "domain/listAll", None)
    }
}

} // verus!
