use std::time::Duration;

use cloudflare::auth::Credentials;
use cloudflare::client::{assemble, request_address, HttpApiClient, HttpApiClientConfig};
use cloudflare::endpoint::{Endpoint, QueryParams, RequestBody};
use cloudflare::environment::Environment;
use cloudflare::params::{OrderDirection, SearchMatch};
use cloudflare::request::{Header, HttpRequest, Method};
use cloudflare::response::{
    map_api_response, ApiFailure, ApiResult, ApiSuccess, RawResponse, TransportError,
    TransportErrorKind,
};

fn header(name: &str, value: &str) -> Header {
    Header { name: name.to_string(), value: value.to_string() }
}

fn client(credentials: Credentials) -> HttpApiClient {
    HttpApiClient::new(credentials, HttpApiClientConfig::default(), Environment::Production)
}

fn token() -> Credentials {
    Credentials::UserAuthToken { token: "t0k3n".to_string() }
}

/// Lists zones: a query and no body.
struct ListZones {
    name: String,
    direction: OrderDirection,
    search_match: SearchMatch,
}

struct ListZonesParams(Vec<(String, String)>);

impl QueryParams for ListZonesParams {
    fn pairs(&self) -> Vec<(String, String)> {
        self.0.clone()
    }
}

impl Endpoint<Vec<u8>, ListZonesParams, ()> for ListZones {
    fn method(&self) -> Method {
        Method::Get
    }
    fn path(&self) -> String {
        "zones".to_string()
    }
    fn query(&self) -> Option<ListZonesParams> {
        Some(ListZonesParams(vec![
            ("name".to_string(), self.name.clone()),
            ("direction".to_string(), self.direction.as_str().to_string()),
            ("match".to_string(), self.search_match.as_str().to_string()),
        ]))
    }
}

/// Creates a record: a body and no query.
struct CreateRecord {
    zone: String,
    payload: Vec<u8>,
    content_type: Option<String>,
}

impl Endpoint<Vec<u8>, (), Vec<u8>> for CreateRecord {
    fn method(&self) -> Method {
        Method::Post
    }
    fn path(&self) -> String {
        format!("/zones/{}/dns_records", self.zone)
    }
    fn body(&self) -> Option<Vec<u8>> {
        Some(self.payload.clone())
    }
    fn content_type(&self) -> String {
        match &self.content_type {
            Some(content_type) => content_type.clone(),
            None => "application/json".to_string(),
        }
    }
}

/// A payload that cannot be written.
struct Unwritable;

impl RequestBody for Unwritable {
    fn to_json(&self) -> Option<Vec<u8>> {
        None
    }
}

struct Broken;

impl Endpoint<(), (), Unwritable> for Broken {
    fn method(&self) -> Method {
        Method::Patch
    }
    fn path(&self) -> String {
        "broken".to_string()
    }
    fn body(&self) -> Option<Unwritable> {
        Some(Unwritable)
    }
}

/// The plainest endpoint: every default.
struct Ping;

impl Endpoint for Ping {
    fn method(&self) -> Method {
        Method::Get
    }
    fn path(&self) -> String {
        "ping".to_string()
    }
}

#[test]
fn default_timeout_is_thirty_seconds() {
    assert_eq!(HttpApiClientConfig::default().http_timeout, Duration::from_secs(30));
}

#[test]
fn client_keeps_what_it_was_made_with() {
    let made = HttpApiClient::new(
        Credentials::Service { key: "k".to_string() },
        HttpApiClientConfig { http_timeout: Duration::from_millis(1500) },
        Environment::Custom("http://localhost:8080".to_string()),
    );
    assert_eq!(made.config().http_timeout, Duration::from_millis(1500));
    assert_eq!(made.environment().resolve(), "http://localhost:8080");
    assert_eq!(made.credentials().headers(), vec![header("X-Auth-User-Service-Key", "k")]);
}

#[test]
fn request_without_body_has_no_content_type() {
    let request = client(token()).make_request(&Ping).expect("a request");
    assert_eq!(
        request,
        HttpRequest {
            method: Method::Get,
            url: "https://api.cloudflare.com/client/v4/ping".to_string(),
            headers: vec![header("Authorization", "Bearer t0k3n")],
            body: None,
        }
    );
    assert!(request.headers.iter().all(|h| !h.name.eq_ignore_ascii_case("content-type")));
}

#[test]
fn unauthenticated_request_without_body_has_no_header() {
    let request = client(Credentials::Unauthenticated).make_request(&Ping).expect("a request");
    assert_eq!(request.headers, Vec::new());
}

#[test]
fn request_with_body_declares_its_type() {
    let endpoint = CreateRecord {
        zone: "023e".to_string(),
        payload: br#"{"type":"A","name":"example.com"}"#.to_vec(),
        content_type: None,
    };
    let credentials = Credentials::UserAuthKey { email: "e@x.org".to_string(), key: "k".to_string() };
    let request = client(credentials).make_request(&endpoint).expect("a request");
    assert_eq!(
        request,
        HttpRequest {
            method: Method::Post,
            url: "https://api.cloudflare.com/client/v4/zones/023e/dns_records".to_string(),
            headers: vec![
                header("content-type", "application/json"),
                header("X-Auth-Email", "e@x.org"),
                header("X-Auth-Key", "k"),
            ],
            body: Some(br#"{"type":"A","name":"example.com"}"#.to_vec()),
        }
    );
}

#[test]
fn declared_content_type_is_kept_exactly() {
    let endpoint = CreateRecord {
        zone: "z".to_string(),
        payload: b"a=b".to_vec(),
        content_type: Some("Application/X-Www-Form-Urlencoded; charset=UTF-8".to_string()),
    };
    let request = client(Credentials::Unauthenticated).make_request(&endpoint).expect("a request");
    assert_eq!(
        request.headers,
        vec![header("content-type", "Application/X-Www-Form-Urlencoded; charset=UTF-8")]
    );
}

#[test]
fn query_goes_into_the_address() {
    let endpoint = ListZones {
        name: "exämple com".to_string(),
        direction: OrderDirection::Descending,
        search_match: SearchMatch::Any,
    };
    let request = client(token()).make_request(&endpoint).expect("a request");
    assert_eq!(
        request.url,
        "https://api.cloudflare.com/client/v4/zones?name=ex%C3%A4mple+com&direction=desc&match=any"
    );
    assert_eq!(request.body, None);
}

/// An endpoint that says where it was asked for its address.
struct Asked;

impl Endpoint for Asked {
    fn method(&self) -> Method {
        Method::Delete
    }
    fn path(&self) -> String {
        "unused".to_string()
    }
    fn url(&self, environment: &Environment) -> Option<String> {
        Some(format!("{}?seen", environment.resolve()))
    }
}

#[test]
fn endpoint_is_asked_for_the_environment_of_the_client() {
    let made = HttpApiClient::new(
        Credentials::Unauthenticated,
        HttpApiClientConfig::default(),
        Environment::Custom("http://localhost:8787/api".to_string()),
    );
    let request = made.make_request(&Asked).expect("a request");
    assert_eq!(request.method, Method::Delete);
    assert_eq!(request.url, "http://localhost:8787/api?seen");
}

#[test]
fn custom_base_without_a_slash_gets_one() {
    let made = HttpApiClient::new(
        token(),
        HttpApiClientConfig::default(),
        Environment::Custom("http://localhost:8787/api".to_string()),
    );
    let request = made.make_request(&Ping).expect("a request");
    assert_eq!(request.url, "http://localhost:8787/api/ping");
    let endpoint = CreateRecord { zone: "z".to_string(), payload: b"{}".to_vec(), content_type: None };
    let made = HttpApiClient::new(
        token(),
        HttpApiClientConfig::default(),
        Environment::Custom("http://localhost:8787/api/".to_string()),
    );
    let request = made.make_request(&endpoint).expect("a request");
    assert_eq!(request.method, Method::Post);
    assert_eq!(request.url, "http://localhost:8787/api/zones/z/dns_records");
}

#[test]
fn query_keeps_its_order_and_escapes_its_values() {
    struct Zones;
    impl Endpoint<Vec<u8>, Vec<(String, String)>, ()> for Zones {
        fn method(&self) -> Method {
            Method::Get
        }
        fn path(&self) -> String {
            "zones".to_string()
        }
        fn query(&self) -> Option<Vec<(String, String)>> {
            Some(vec![
                ("per_page".to_string(), "20".to_string()),
                ("name".to_string(), "a&b".to_string()),
            ])
        }
    }
    let request = client(token()).make_request(&Zones).expect("a request");
    assert_eq!(request.url, "https://api.cloudflare.com/client/v4/zones?per_page=20&name=a%26b");
}

#[test]
fn payload_that_cannot_be_written_fails_the_request() {
    let built = client(token()).make_request(&Broken);
    assert_eq!(
        built,
        Err(TransportError {
            kind: TransportErrorKind::Request,
            message: "the payload of the request cannot be written as JSON".to_string(),
        })
    );
}

#[test]
fn environment_without_an_absolute_address_fails_the_request() {
    let made = HttpApiClient::new(
        token(),
        HttpApiClientConfig::default(),
        Environment::Custom("api.example.com/v4".to_string()),
    );
    assert_eq!(
        made.make_request(&Ping),
        Err(TransportError {
            kind: TransportErrorKind::Request,
            message: "the request has no well-formed absolute address".to_string(),
        })
    );
}

#[test]
fn request_address_needs_an_address() {
    let pairs = vec![("a".to_string(), "b".to_string())];
    assert_eq!(request_address(Some("http://host/x".to_string()), &pairs), Ok("http://host/x?a=b".to_string()));
    assert!(request_address(None, &pairs).is_err());
    assert!(request_address(Some("/relative".to_string()), &pairs).is_err());
}

#[test]
fn assemble_puts_the_content_type_before_the_credentials() {
    let request = assemble(
        &token(),
        Method::Delete,
        "http://host/x".to_string(),
        Some((b"{}".to_vec(), "application/json".to_string())),
    );
    assert_eq!(
        request.headers,
        vec![header("content-type", "application/json"), header("Authorization", "Bearer t0k3n")]
    );
    assert_eq!(request.body, Some(b"{}".to_vec()));
    let request = assemble(&token(), Method::Delete, "http://host/x".to_string(), None);
    assert_eq!(request.headers, vec![header("Authorization", "Bearer t0k3n")]);
    assert_eq!(request.body, None);
}

#[test]
fn payload_sent_comes_back_as_the_result() {
    let payload = br#"{"type":"A","name":"example.com","ttl":120,"tags":["a","b"]}"#.to_vec();
    let endpoint = CreateRecord { zone: "z".to_string(), payload: payload.clone(), content_type: None };
    let request = client(token()).make_request(&endpoint).expect("a request");
    let sent = request.body.expect("a body");
    let mut body = br#"{"success":true,"errors":[],"messages":[],"result":"#.to_vec();
    body.extend_from_slice(&sent);
    body.extend_from_slice(b"}");
    let outcome: Result<ApiSuccess<Vec<u8>>, ApiFailure> =
        map_api_response(RawResponse { status: 200, body });
    let result = outcome.expect("a success").result;
    let received: serde_json::Value = serde_json::from_slice(&result).expect("JSON");
    let expected: serde_json::Value = serde_json::from_slice(&payload).expect("JSON");
    assert_eq!(received, expected);
}

#[test]
fn builtin_shapes_read_and_write_themselves() {
    assert_eq!(().pairs(), Vec::new());
    let pairs = vec![("k".to_string(), "v".to_string())];
    assert_eq!(pairs.pairs(), pairs);
    assert_eq!(().to_json(), Some(b"null".to_vec()));
    assert_eq!(b"[1]".to_vec().to_json(), Some(b"[1]".to_vec()));
    assert_eq!(<() as ApiResult>::from_json(b" null "), Some(()));
    assert_eq!(<() as ApiResult>::from_json(b"0"), None);
    assert_eq!(<Vec<u8> as ApiResult>::from_json(b"{\"a\":1}"), Some(b"{\"a\":1}".to_vec()));
}
