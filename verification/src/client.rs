//! The client: what it is configured with, and how it builds the request of
//! an endpoint.

use crate::auth::{lemma_credentials_declare_no_content_type, Credentials};
use crate::endpoint::{Endpoint, QueryParams, RequestBody};
use crate::environment::{
    is_absolute_url, lemma_single_separator, parses_as_url, without_leading_slashes,
    without_trailing_slashes, Environment,
};
use crate::query::{append_query, lemma_query_follows_one_mark, query_string, with_query};
use crate::request::{content_type_name, HeaderView, HttpRequest, HttpRequestView, Method};
use crate::response::{ApiResult, TransportError, TransportErrorKind, TransportErrorView};
use std::time::Duration;
use vstd::prelude::*;

verus! {

/// The duration of a whole number of seconds, as `Duration::from_secs`
/// makes it.
pub uninterp spec fn duration_of_secs(secs: u64) -> Duration;

/// `Duration::from_secs`: the result is the duration of `secs` whole seconds.
pub assume_specification[ Duration::from_secs ](secs: u64) -> (duration: Duration)
    ensures
        duration == duration_of_secs(secs),
;

/// What governs every request that one client issues.
pub struct HttpApiClientConfig {
    /// How long the transport waits for a response.
    pub http_timeout: Duration,
}

impl Default for HttpApiClientConfig {
    /// A timeout of thirty seconds.
    fn default() -> (config: Self)
        ensures
            config.http_timeout == duration_of_secs(30),
    {
        HttpApiClientConfig { http_timeout: Duration::from_secs(30) }
    }
}

/// What is said of a request that has no well-formed absolute address.
pub open spec fn address_error_text() -> Seq<char> {
    "the request has no well-formed absolute address"@
}

/// What is said of a request whose payload cannot be written.
pub open spec fn body_error_text() -> Seq<char> {
    "the payload of the request cannot be written as JSON"@
}

/// The failure of a request that could not be built, for the reason given.
pub open spec fn request_error(message: Seq<char>) -> TransportErrorView {
    TransportErrorView { kind: TransportErrorKind::Request, message }
}

/// The text and the declared type of an optional body.
pub open spec fn body_view(body: Option<(Vec<u8>, String)>) -> Option<(Seq<u8>, Seq<char>)> {
    match body {
        Some((bytes, content_type)) => Some((bytes@, content_type@)),
        None => None,
    }
}

/// The request that is assembled from its parts: where there is a body, the
/// header that declares its type comes first; the headers of the
/// credentials follow, and there are no others.
pub open spec fn assembled(
    credentials: Credentials,
    method: Method,
    address: Seq<char>,
    body: Option<(Seq<u8>, Seq<char>)>,
) -> HttpRequestView {
    match body {
        Some((bytes, content_type)) => HttpRequestView {
            method,
            url: address,
            headers: seq![HeaderView { name: content_type_name(), value: content_type }]
                + credentials.header_views(),
            body: Some(bytes),
        },
        None => HttpRequestView {
            method,
            url: address,
            headers: credentials.header_views(),
            body: None,
        },
    }
}

/// The body of a request together with the type that its first header
/// declares.
pub open spec fn declared_body(request: HttpRequestView) -> Option<(Seq<u8>, Seq<char>)> {
    match request.body {
        Some(bytes) => Some((bytes, request.headers[0].value)),
        None => None,
    }
}

/// The full address of a request: the endpoint's address with the
/// parameters appended, where that is a well-formed absolute address.
pub fn request_address(url: Option<String>, pairs: &Vec<(String, String)>) -> (address: Result<
    String,
    TransportError,
>)
    ensures
        match address {
            Ok(text) => {
                &&& url matches Some(base)
                &&& text@ == with_query(base@, pairs.deep_view())
                &&& is_absolute_url(text@)
            },
            Err(error) => {
                &&& error@ == request_error(address_error_text())
                &&& url matches Some(base) ==> !is_absolute_url(
                    with_query(base@, pairs.deep_view()),
                )
            },
        },
{
    match url {
        Some(base) => {
            let text = append_query(base, pairs);
            if parses_as_url(text.as_str()) {
                return Ok(text);
            }
        },
        None => {},
    }
    Err(
        TransportError {
            kind: TransportErrorKind::Request,
            message: "the request has no well-formed absolute address".to_owned(),
        },
    )
}

/// Assembles a request from its parts.
pub fn assemble(
    credentials: &Credentials,
    method: Method,
    address: String,
    body: Option<(Vec<u8>, String)>,
) -> (request: HttpRequest)
    ensures
        request@ == assembled(*credentials, method, address@, body_view(body)),
{
    let mut request = HttpRequest::new(method, address);
    match body {
        Some((bytes, content_type)) => {
            request = request.body(bytes);
            request = request.header("content-type", content_type);
        },
        None => {},
    }
    request.auth(credentials)
}

/// A client of the service: where it sends its requests, as whom, and under
/// which configuration. All three are fixed when the client is made.
pub struct HttpApiClient {
    environment: Environment,
    credentials: Credentials,
    config: HttpApiClientConfig,
}

/// What a client is made of.
pub ghost struct HttpApiClientView {
    pub environment: Environment,
    pub credentials: Credentials,
    pub config: HttpApiClientConfig,
}

impl View for HttpApiClient {
    type V = HttpApiClientView;

    closed spec fn view(&self) -> HttpApiClientView {
        HttpApiClientView {
            environment: self.environment,
            credentials: self.credentials,
            config: self.config,
        }
    }
}

impl HttpApiClient {
    /// A client for `environment` that identifies itself by `credentials`.
    pub fn new(
        credentials: Credentials,
        config: HttpApiClientConfig,
        environment: Environment,
    ) -> (client: HttpApiClient)
        ensures
            client@ == (HttpApiClientView { environment, credentials, config }),
    {
        HttpApiClient { environment, credentials, config }
    }

    /// Where this client sends its requests.
    pub fn environment(&self) -> (environment: &Environment)
        ensures
            *environment == self@.environment,
    {
        &self.environment
    }

    /// As whom this client sends its requests.
    pub fn credentials(&self) -> (credentials: &Credentials)
        ensures
            *credentials == self@.credentials,
    {
        &self.credentials
    }

    /// The configuration of this client.
    pub fn config(&self) -> (config: &HttpApiClientConfig)
        ensures
            *config == self@.config,
    {
        &self.config
    }

    /// Builds the request of an endpoint.
    ///
    /// The endpoint is asked for its verb, for its parameters, and for its
    /// address in the environment of this client. Where it gives no
    /// address, or the address with the parameters appended is not a
    /// well-formed absolute one, the request fails for want of an address.
    /// Else the endpoint is asked for its payload: without one, the request
    /// is assembled without a body; with one that cannot be written, the
    /// request fails for want of a payload; with one that can, the endpoint
    /// is asked for the type of the body, and the request is assembled
    /// with both. A request that is built has the credentials of this
    /// client.
    pub fn make_request<ResultType, QueryType, BodyType, E>(&self, endpoint: &E) -> (built: Result<
        HttpRequest,
        TransportError,
    >) where
        ResultType: ApiResult,
        QueryType: QueryParams,
        BodyType: RequestBody,
        E: Endpoint<ResultType, QueryType, BodyType>,

        ensures
            match built {
                Ok(request) => {
                    &&& is_absolute_url(request@.url)
                    &&& request@ == assembled(
                        self@.credentials,
                        request@.method,
                        request@.url,
                        declared_body(request@),
                    )
                },
                Err(error) => {
                    ||| error@ == request_error(address_error_text())
                    ||| error@ == request_error(body_error_text())
                },
            },
            exists|
                method: Method,
                query: Option<QueryType>,
                pairs: Vec<(String, String)>,
                url: Option<String>,
            |
                #![trigger
                    call_ensures(E::method, (endpoint,), method),
                    call_ensures(E::query, (endpoint,), query),
                    call_ensures(E::url, (endpoint, &self@.environment), url),
                    pairs.deep_view(),
                ]
                {
                    &&& call_ensures(E::method, (endpoint,), method)
                    &&& call_ensures(E::query, (endpoint,), query)
                    &&& match query {
                        Some(given) => call_ensures(QueryType::pairs, (&given,), pairs),
                        None => pairs.deep_view().len() == 0,
                    }
                    &&& call_ensures(E::url, (endpoint, &self@.environment), url)
                    &&& if url is Some && is_absolute_url(
                        with_query(url->0@, pairs.deep_view()),
                    ) {
                        exists|body: Option<BodyType>|
                            (#[trigger] call_ensures(E::body, (endpoint,), body)) && (match body {
                                None => (built is Ok && built->Ok_0@ == assembled(
                                    self@.credentials,
                                    method,
                                    with_query(url->0@, pairs.deep_view()),
                                    None,
                                )),
                                Some(payload) => (exists|text: Option<Vec<u8>>|
                                    (#[trigger] call_ensures(
                                        BodyType::to_json,
                                        (&payload,),
                                        text,
                                    )) && (match text {
                                        None => (built is Err && built->Err_0@ == request_error(
                                            body_error_text(),
                                        )),
                                        Some(bytes) => (exists|content_type: String|
                                            (#[trigger] call_ensures(
                                                E::content_type,
                                                (endpoint,),
                                                content_type,
                                            )) && built is Ok && built->Ok_0@ == assembled(
                                                self@.credentials,
                                                method,
                                                with_query(url->0@, pairs.deep_view()),
                                                Some((bytes@, content_type@)),
                                            )),
                                    })),
                            })
                    } else {
                        (built is Err && built->Err_0@ == request_error(address_error_text()))
                    }
                },
    {
        let method = endpoint.method();
        let pairs = match endpoint.query() {
            Some(query) => query.pairs(),
            None => Vec::new(),
        };
        let address = match request_address(endpoint.url(&self.environment), &pairs) {
            Ok(address) => address,
            Err(error) => return Err(error),
        };
        let body = match endpoint.body() {
            Some(payload) => match payload.to_json() {
                Some(bytes) => Some((bytes, endpoint.content_type())),
                None => return Err(
                    TransportError {
                        kind: TransportErrorKind::Request,
                        message: "the payload of the request cannot be written as JSON".to_owned(),
                    },
                ),
            },
            None => None,
        };
        Ok(assemble(&self.credentials, method, address, body))
    }
}

/// An assembled request declares the type of its body where it has one,
/// and only there: without a body no header is named `content-type`; with
/// a body the first header is, its value is the type declared, and no
/// other header is. What follows are the headers of the credentials.
pub proof fn lemma_content_type_follows_body(
    credentials: Credentials,
    method: Method,
    address: Seq<char>,
    body: Option<(Seq<u8>, Seq<char>)>,
)
    ensures
        ({
            let request = assembled(credentials, method, address, body);
            match body {
                Some((bytes, content_type)) => {
                    &&& request.body == Some(bytes)
                    &&& request.headers.len() == 1 + credentials.header_views().len()
                    &&& request.headers[0] == (HeaderView {
                        name: content_type_name(),
                        value: content_type,
                    })
                    &&& request.headers.skip(1) == credentials.header_views()
                    &&& forall|i: int|
                        1 <= i < request.headers.len() ==> (#[trigger] request.headers[i]).name
                            != content_type_name()
                },
                None => {
                    &&& request.body is None
                    &&& request.headers == credentials.header_views()
                    &&& forall|i: int|
                        0 <= i < request.headers.len() ==> (#[trigger] request.headers[i]).name
                            != content_type_name()
                },
            }
        }),
{
    lemma_credentials_declare_no_content_type(credentials);
    let request = assembled(credentials, method, address, body);
    if body is Some {
        assert(request.headers.skip(1) == credentials.header_views());
        assert forall|i: int| 1 <= i < request.headers.len() implies (
        #[trigger] request.headers[i]).name != content_type_name() by {
            assert(request.headers[i] == credentials.header_views()[i - 1]);
        }
    }
}

/// In the address of a path in an environment, with parameters appended,
/// no separator is doubled and none is missing. The base address without
/// the slashes at its end comes first; exactly one slash follows; then the
/// path without the slashes at its start. Where there are parameters and
/// the path holds no `?`, exactly one `?` follows, and after it the query
/// string, in which there is neither `?` nor slash.
pub proof fn lemma_address_is_well_separated(
    environment: Environment,
    path: Seq<char>,
    pairs: Seq<(Seq<char>, Seq<char>)>,
)
    requires
        path.len() > 0,
    ensures
        ({
            let head = without_trailing_slashes(environment.base_address());
            let tail = without_leading_slashes(path);
            let address = environment.address_of(path);
            let full = with_query(address, pairs);
            let at = head.len() as int;
            let end = address.len() as int;
            &&& end == at + 1 + tail.len()
            &&& end <= full.len()
            &&& full.subrange(0, at) == head
            &&& full[at] == '/'
            &&& full.subrange(at + 1, end) == tail
            &&& at > 0 ==> full[at - 1] != '/'
            &&& tail.len() > 0 ==> full[at + 1] != '/'
            &&& pairs.len() == 0 ==> full == address
            &&& pairs.len() > 0 && !address.contains('?') ==> {
                &&& full.len() == end + 1 + query_string(pairs).len()
                &&& full[end] == '?'
                &&& full.subrange(end + 1, full.len() as int) == query_string(pairs)
                &&& forall|i: int| end < i < full.len() ==> full[i] != '?' && full[i] != '/'
            }
        }),
{
    let address = environment.address_of(path);
    let full = with_query(address, pairs);
    lemma_single_separator(environment.base_address(), path);
    if pairs.len() > 0 && !address.contains('?') {
        lemma_query_follows_one_mark(address, pairs);
        assert(full.subrange(0, address.len() as int) == address);
    }
    let head = without_trailing_slashes(environment.base_address());
    let tail = without_leading_slashes(path);
    let at = head.len() as int;
    let end = address.len() as int;
    assert(full.subrange(0, end) == address);
    assert(full.subrange(0, at) == address.subrange(0, at));
    assert(full.subrange(at + 1, end) == address.subrange(at + 1, end));
}

} // verus!
