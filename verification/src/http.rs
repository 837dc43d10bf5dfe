//! The request model. Every operation of the library builds an
//! [`HttpRequest`] value that pins down the method, URL, query parameters,
//! body and credentials of the HTTP request to perform; an unverified
//! transport around the library executes it.

use vstd::prelude::*;

verus! {

/// The HTTP method of a request.
#[derive(Debug, Clone, Copy, PartialEq, Eq, Structural)]
pub enum HttpMethod {
    /// An HTTP GET request.
    Get,
    /// An HTTP PUT request.
    Put,
    /// An HTTP POST request.
    Post,
}

/// One HTTP request of the protocol, as a value.
#[derive(Debug, Clone)]
pub struct HttpRequest {
    /// The HTTP method.
    pub method: HttpMethod,
    /// The full URL, without the query string.
    pub url: String,
    /// Query parameters, in order; repeated keys are permitted.
    pub query: Vec<(String, String)>,
    /// The JSON body, for PUT and POST requests.
    pub body: Option<String>,
    /// HTTP Basic credentials: username and password.
    pub auth: Option<(String, String)>,
}

/// The mathematical model of a request.
#[verifier::ext_equal]
pub ghost struct ReqView {
    /// The HTTP method.
    pub method: HttpMethod,
    /// The characters of the URL.
    pub url: Seq<char>,
    /// The query parameters, in order.
    pub query: Seq<(Seq<char>, Seq<char>)>,
    /// The characters of the body, if any.
    pub body: Option<Seq<char>>,
    /// The credentials, if any.
    pub auth: Option<(Seq<char>, Seq<char>)>,
}

impl View for HttpRequest {
    type V = ReqView;

    open spec fn view(&self) -> ReqView {
        ReqView {
            method: self.method,
            url: self.url@,
            query: self.query@.map_values(|kv: (String, String)| (kv.0@, kv.1@)),
            body: match self.body {
                Some(b) => Some(b@),
                None => None,
            },
            auth: match self.auth {
                Some(c) => Some((c.0@, c.1@)),
                None => None,
            },
        }
    }
}

/// The same request with credentials attached.
pub open spec fn with_auth(r: ReqView, username: Seq<char>, password: Seq<char>) -> ReqView {
    ReqView { auth: Some((username, password)), ..r }
}

/// The same request, signed the way the client signs: untouched for an
/// anonymous client, with credentials attached otherwise.
pub open spec fn signed(r: ReqView, c: Option<(Seq<char>, Seq<char>)>) -> ReqView {
    match c {
        Some(credentials) => with_auth(r, credentials.0, credentials.1),
        None => r,
    }
}

/// Law: signing a request, with credentials or without, leaves its method,
/// URL, query parameters and body untouched: an operation invoked on any of
/// the client levels sends the identical request up to the credentials it
/// carries.
pub proof fn lemma_signed_preserves_request(r: ReqView, c: Option<(Seq<char>, Seq<char>)>)
    ensures
        signed(r, c).method == r.method,
        signed(r, c).url == r.url,
        signed(r, c).query == r.query,
        signed(r, c).body == r.body,
{
}

/// Law: attaching credentials to a request leaves its method, URL, query
/// parameters and body untouched. Together with the contracts of the request
/// builders — an authenticated client builds `with_auth(q, ..)` exactly where
/// the anonymous client builds `q`, and a device-scoped client builds the
/// very same view as its wrapped authenticated client — this says that
/// delegation between the client levels changes a request only by the
/// credentials it carries.
pub proof fn lemma_with_auth_preserves_request(r: ReqView, u: Seq<char>, p: Seq<char>)
    ensures
        with_auth(r, u, p).method == r.method,
        with_auth(r, u, p).url == r.url,
        with_auth(r, u, p).query == r.query,
        with_auth(r, u, p).body == r.body,
        with_auth(r, u, p).auth == Some((u, p)),
{
}

impl HttpRequest {
    /// A GET request of the given URL, with no query, body or credentials.
    pub fn get(url: String) -> (r: HttpRequest)
        ensures
            r@.method == HttpMethod::Get,
            r@.url == url@,
            r@.query == Seq::<(Seq<char>, Seq<char>)>::empty(),
            r@.body is None,
            r@.auth is None,
    {
        let r = HttpRequest { method: HttpMethod::Get, url, query: Vec::new(), body: None, auth: None };
        proof {
            assert(r@.query =~= Seq::<(Seq<char>, Seq<char>)>::empty());
        }
        r
    }

    /// A PUT request of the given URL with the given body.
    pub fn put(url: String, body: String) -> (r: HttpRequest)
        ensures
            r@.method == HttpMethod::Put,
            r@.url == url@,
            r@.query == Seq::<(Seq<char>, Seq<char>)>::empty(),
            r@.body == Some(body@),
            r@.auth is None,
    {
        let r = HttpRequest {
            method: HttpMethod::Put,
            url,
            query: Vec::new(),
            body: Some(body),
            auth: None,
        };
        proof {
            assert(r@.query =~= Seq::<(Seq<char>, Seq<char>)>::empty());
        }
        r
    }

    /// A POST request of the given URL with the given body.
    pub fn post(url: String, body: String) -> (r: HttpRequest)
        ensures
            r@.method == HttpMethod::Post,
            r@.url == url@,
            r@.query == Seq::<(Seq<char>, Seq<char>)>::empty(),
            r@.body == Some(body@),
            r@.auth is None,
    {
        let r = HttpRequest {
            method: HttpMethod::Post,
            url,
            query: Vec::new(),
            body: Some(body),
            auth: None,
        };
        proof {
            assert(r@.query =~= Seq::<(Seq<char>, Seq<char>)>::empty());
        }
        r
    }

    /// Appends one query parameter.
    pub fn push_query(&mut self, key: &str, value: String)
        ensures
            final(self)@ == (ReqView {
                query: old(self)@.query.push((key@, value@)),
                ..old(self)@
            }),
    {
        let ghost before = self@;
        self.query.push((key.to_owned(), value));
        proof {
            assert(self@.query =~= before.query.push((key@, value@)));
            assert(self@ =~= (ReqView { query: before.query.push((key@, value@)), ..before }));
        }
    }

    /// Attaches HTTP Basic credentials.
    pub fn with_credentials(self, username: &str, password: &str) -> (r: HttpRequest)
        ensures
            r@ == with_auth(self@, username@, password@),
    {
        let ghost before = self@;
        let r = HttpRequest {
            auth: Some((username.to_owned(), password.to_owned())),
            ..self
        };
        proof {
            assert(r@ =~= with_auth(before, username@, password@));
        }
        r
    }
}

} // verus!
