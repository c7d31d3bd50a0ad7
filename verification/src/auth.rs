//! Credentials, and the headers by which a request carries them.

use crate::request::{content_type_name, Header, HeaderView, HttpRequest, HttpRequestView};
use vstd::prelude::*;
use vstd::string::*;

verus! {

/// The ways in which a client can identify itself to the service.
pub enum Credentials {
    /// An account's e-mail address and its API key.
    UserAuthKey { email: String, key: String },
    /// A bearer token.
    UserAuthToken { token: String },
    /// A service key.
    Service { key: String },
    /// No identification at all.
    Unauthenticated,
}

impl Credentials {
    /// The headers that carry these credentials, in the order in which they
    /// are added to a request.
    pub open spec fn header_views(self) -> Seq<HeaderView> {
        match self {
            Credentials::UserAuthKey { email, key } => seq![
                HeaderView { name: "X-Auth-Email"@, value: email@ },
                HeaderView { name: "X-Auth-Key"@, value: key@ },
            ],
            Credentials::UserAuthToken { token } => seq![
                HeaderView { name: "Authorization"@, value: "Bearer "@ + token@ },
            ],
            Credentials::Service { key } => seq![
                HeaderView { name: "X-Auth-User-Service-Key"@, value: key@ },
            ],
            Credentials::Unauthenticated => Seq::empty(),
        }
    }

    /// The headers that carry these credentials.
    pub fn headers(&self) -> (headers: Vec<Header>)
        ensures
            headers.deep_view() == self.header_views(),
    {
        let mut headers: Vec<Header> = Vec::new();
        match self {
            Credentials::UserAuthKey { email, key } => {
                headers.push(Header { name: "X-Auth-Email".to_owned(), value: email.clone() });
                headers.push(Header { name: "X-Auth-Key".to_owned(), value: key.clone() });
            },
            Credentials::UserAuthToken { token } => {
                let mut value = "Bearer ".to_owned();
                value.append(token.as_str());
                headers.push(Header { name: "Authorization".to_owned(), value });
            },
            Credentials::Service { key } => {
                headers.push(
                    Header { name: "X-Auth-User-Service-Key".to_owned(), value: key.clone() },
                );
            },
            Credentials::Unauthenticated => {},
        }
        assert(headers.deep_view() == self.header_views());
        headers
    }
}

impl HttpRequest {
    /// The request with the headers of `credentials` after those it has;
    /// nothing else changes.
    pub fn auth(self, credentials: &Credentials) -> (request: HttpRequest)
        ensures
            request@ == (HttpRequestView {
                headers: self@.headers + credentials.header_views(),
                ..self@
            }),
    {
        let HttpRequest { method, url, headers, body } = self;
        let mut headers = headers;
        let mut added = credentials.headers();
        let ghost before = headers.deep_view();
        let ghost extra = added.deep_view();
        headers.append(&mut added);
        assert(headers.deep_view() == before + extra);
        HttpRequest { method, url, headers, body }
    }
}

/// No header of any credentials declares the type of a body.
pub proof fn lemma_credentials_declare_no_content_type(credentials: Credentials)
    ensures
        forall|i: int|
            0 <= i < credentials.header_views().len() ==> (
            #[trigger] credentials.header_views()[i]).name != content_type_name(),
{
    reveal_strlit("content-type");
    reveal_strlit("X-Auth-Email");
    reveal_strlit("X-Auth-Key");
    reveal_strlit("Authorization");
    reveal_strlit("X-Auth-User-Service-Key");
    assert("content-type"@[0] == 'c');
    assert("X-Auth-Email"@[0] == 'X');
    assert("X-Auth-Key"@[0] == 'X');
    assert("Authorization"@[0] == 'A');
    assert("X-Auth-User-Service-Key"@[0] == 'X');
}

} // verus!
