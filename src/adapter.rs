//! The client of the mock server's management API.
//!
//! Each operation builds one request, hands it to a transport supplied by the
//! caller, checks the status code of the reply against the one the operation
//! expects, and decodes the body where the operation has a result.

use vstd::prelude::*;
use crate::decimal::{decimal, decimal_string};
use crate::method::Method;

verus! {

/// A request to the management API, ready to be put on the wire.
#[derive(Debug, Clone, PartialEq, Eq)]
pub struct HttpRequest {
    pub method: Method,
    pub url: String,
    /// The value of the `Content-Type` header, where one is sent.
    pub content_type: Option<String>,
    pub body: Option<String>,
}

/// A reply of the mock server: its status code and its body as text.
#[derive(Debug, Clone, PartialEq, Eq)]
pub struct HttpResponse {
    pub status: u16,
    pub body: String,
}

/// Why an operation of the adapter failed.
#[derive(Debug, Clone, PartialEq, Eq)]
pub enum AdapterError {
    /// The input could not be encoded as JSON; no request was sent.
    Serialization(String),
    /// The request could not be carried out.
    Transport(String),
    /// The server replied with a status code other than the expected one.
    UnexpectedStatus { status: u16, body: String },
    /// The body of a successful reply could not be decoded.
    Deserialization(String),
}

/// The diagnostic text of an error: its kind and everything it carries.
pub open spec fn error_message(e: AdapterError) -> Seq<char> {
    match e {
        AdapterError::Serialization(m) => "cannot serialize mock object to JSON: "@ + m@,
        AdapterError::Transport(m) => "cannot send request to mock server: "@ + m@,
        AdapterError::UnexpectedStatus { status, body } =>
            "unexpected mock server response: status = "@ + decimal(status as nat) + ", message = "@ + body@,
        AdapterError::Deserialization(m) => "cannot deserialize mock server response: "@ + m@,
    }
}

impl AdapterError {
    /// The diagnostic text of the error.
    pub fn message(&self) -> (r: String)
        ensures
            r@ == error_message(*self),
    {
        match self {
            AdapterError::Serialization(m) => {
                let mut r = String::from_str("cannot serialize mock object to JSON: ");
                r.append(m.as_str());
                r
            },
            AdapterError::Transport(m) => {
                let mut r = String::from_str("cannot send request to mock server: ");
                r.append(m.as_str());
                r
            },
            AdapterError::UnexpectedStatus { status, body } => {
                let mut r = String::from_str("unexpected mock server response: status = ");
                let code = decimal_string(*status as u64);
                r.append(code.as_str());
                r.append(", message = ");
                r.append(body.as_str());
                r
            },
            AdapterError::Deserialization(m) => {
                let mut r = String::from_str("cannot deserialize mock server response: ");
                r.append(m.as_str());
                r
            },
        }
    }
}

pub open spec fn json_content_type() -> Seq<char> {
    "application/json"@
}

/// The path under which the server keeps its mocks.
pub open spec fn mocks_path() -> Seq<char> {
    "/__mocks"@
}

/// The path of the mock with the given id.
pub open spec fn mock_path(id: nat) -> Seq<char> {
    "/__mocks/"@ + decimal(id)
}

/// `req` has the given method, URL and body, and declares a JSON body exactly
/// when it has one.
pub open spec fn is_request(req: HttpRequest, method: Method, url: Seq<char>, body: Option<Seq<char>>) -> bool {
    &&& req.method == method
    &&& req.url@ == url
    &&& match body {
        None => req.body is None && req.content_type is None,
        Some(b) => {
            &&& req.body is Some
            &&& req.body->Some_0@ == b
            &&& req.content_type is Some
            &&& req.content_type->Some_0@ == json_content_type()
        },
    }
}

/// What an operation that expects the status `expected` makes of the outcome
/// of its request: the body of the reply, or the error.
pub open spec fn expected_outcome(expected: u16, outcome: Result<HttpResponse, String>) -> Result<String, AdapterError> {
    match outcome {
        Err(e) => Err(AdapterError::Transport(e)),
        Ok(resp) => if resp.status == expected {
            Ok(resp.body)
        } else {
            Err(AdapterError::UnexpectedStatus { status: resp.status, body: resp.body })
        },
    }
}

/// The result of an operation whose body was handed to a decoder.
pub open spec fn decoded<T>(d: Result<T, String>) -> Result<T, AdapterError> {
    match d {
        Ok(v) => Ok(v),
        Err(e) => Err(AdapterError::Deserialization(e)),
    }
}

/// `r` is what an operation returns after `checked`: the error as it is, or
/// what `decode` made of the body.
pub open spec fn concluded<T, D: FnOnce(String) -> Result<T, String>>(
    checked: Result<String, AdapterError>,
    decode: D,
    r: Result<T, AdapterError>,
) -> bool {
    match checked {
        Err(e) => r == Err::<T, AdapterError>(e),
        Ok(b) => exists|d: Result<T, String>| #[trigger] decode.ensures((b,), d) && r == decoded(d),
    }
}

/// The result of an operation without a result value.
pub open spec fn unit_outcome(checked: Result<String, AdapterError>) -> Result<(), AdapterError> {
    match checked {
        Ok(_) => Ok(()),
        Err(e) => Err(e),
    }
}

/// Checks the outcome of a request against the status code that the
/// operation expects.
pub fn evaluate_response(expected: u16, outcome: Result<HttpResponse, String>) -> (r: Result<String, AdapterError>)
    ensures
        r == expected_outcome(expected, outcome),
{
    match outcome {
        Err(e) => Err(AdapterError::Transport(e)),
        Ok(resp) => if resp.status == expected {
            Ok(resp.body)
        } else {
            Err(AdapterError::UnexpectedStatus { status: resp.status, body: resp.body })
        },
    }
}

/// Turns the decoder's verdict on a body into the operation's result.
pub fn decode_result<T>(d: Result<T, String>) -> (r: Result<T, AdapterError>)
    ensures
        r == decoded(d),
{
    match d {
        Ok(v) => Ok(v),
        Err(e) => Err(AdapterError::Deserialization(e)),
    }
}

/// A reply whose status differs from the one an operation expects ends that
/// operation in `UnexpectedStatus` with the reply's status and body, whatever
/// the body holds: the decoder's verdict on it plays no part.
pub proof fn lemma_status_validation<T, D: FnOnce(String) -> Result<T, String>>(
    expected: u16,
    resp: HttpResponse,
    decode: D,
    r: Result<T, AdapterError>,
)
    requires
        resp.status != expected,
    ensures
        expected_outcome(expected, Ok(resp)) == Err::<String, AdapterError>(
            AdapterError::UnexpectedStatus { status: resp.status, body: resp.body },
        ),
        concluded(expected_outcome(expected, Ok(resp)), decode, r) ==> r == Err::<T, AdapterError>(
            AdapterError::UnexpectedStatus { status: resp.status, body: resp.body },
        ),
        unit_outcome(expected_outcome(expected, Ok(resp))) == Err::<(), AdapterError>(
            AdapterError::UnexpectedStatus { status: resp.status, body: resp.body },
        ),
{
}

/// A reply with status 202 is a success of a deletion, whatever its body:
/// deleting all mocks of a server that holds none succeeds as well.
pub proof fn lemma_delete_accepted(resp: HttpResponse)
    requires
        resp.status == 202,
    ensures
        unit_outcome(expected_outcome(202, Ok(resp))) == Ok::<(), AdapterError>(()),
{
}

/// Gives access to the management functionality of a mock server that runs
/// at a fixed host and port.
#[derive(Debug)]
pub struct MockServerHttpAdapter {
    host: String,
    port: u16,
}

impl MockServerHttpAdapter {
    /// The host that the adapter talks to.
    pub closed spec fn host_spec(&self) -> Seq<char> {
        self.host@
    }

    /// The port that the adapter talks to.
    pub closed spec fn port_spec(&self) -> u16 {
        self.port
    }

    /// `host:port`, with the port in decimal.
    pub open spec fn address_spec(&self) -> Seq<char> {
        self.host_spec() + ":"@ + decimal(self.port_spec() as nat)
    }

    /// The URL of `path` on the server.
    pub open spec fn url_spec(&self, path: Seq<char>) -> Seq<char> {
        "http://"@ + self.address_spec() + path
    }

    pub fn new(host: String, port: u16) -> (r: MockServerHttpAdapter)
        ensures
            r.host_spec() == host@,
            r.port_spec() == port,
    {
        MockServerHttpAdapter { host, port }
    }

    pub fn server_port(&self) -> (r: u16)
        ensures
            r == self.port_spec(),
    {
        self.port
    }

    pub fn server_host(&self) -> (r: &str)
        ensures
            r@ == self.host_spec(),
    {
        self.host.as_str()
    }

    pub fn server_address(&self) -> (r: String)
        ensures
            r@ == self.address_spec(),
    {
        let mut a = String::from_str(self.server_host());
        a.append(":");
        let port = decimal_string(self.server_port() as u64);
        a.append(port.as_str());
        a
    }

    fn url(&self, path: &str) -> (r: String)
        ensures
            r@ == self.url_spec(path@),
    {
        let mut u = String::from_str("http://");
        let address = self.server_address();
        u.append(address.as_str());
        u.append(path);
        u
    }

    fn mock_url(&self, mock_id: usize) -> (r: String)
        ensures
            r@ == self.url_spec(mock_path(mock_id as nat)),
    {
        let mut path = String::from_str("/__mocks/");
        let id = decimal_string(mock_id as u64);
        path.append(id.as_str());
        self.url(path.as_str())
    }

    /// The request that creates a mock from its JSON text.
    pub fn create_request(&self, mock_json: String) -> (r: HttpRequest)
        ensures
            is_request(r, Method::POST, self.url_spec(mocks_path()), Some(mock_json@)),
    {
        HttpRequest {
            method: Method::POST,
            url: self.url("/__mocks"),
            content_type: Some(String::from_str("application/json")),
            body: Some(mock_json),
        }
    }

    /// The request that fetches the mock with the given id.
    pub fn fetch_request(&self, mock_id: usize) -> (r: HttpRequest)
        ensures
            is_request(r, Method::GET, self.url_spec(mock_path(mock_id as nat)), None),
    {
        HttpRequest { method: Method::GET, url: self.mock_url(mock_id), content_type: None, body: None }
    }

    /// The request that deletes the mock with the given id.
    pub fn delete_request(&self, mock_id: usize) -> (r: HttpRequest)
        ensures
            is_request(r, Method::DELETE, self.url_spec(mock_path(mock_id as nat)), None),
    {
        HttpRequest { method: Method::DELETE, url: self.mock_url(mock_id), content_type: None, body: None }
    }

    /// The request that deletes every mock on the server.
    pub fn delete_all_request(&self) -> (r: HttpRequest)
        ensures
            is_request(r, Method::DELETE, self.url_spec(mocks_path()), None),
    {
        HttpRequest { method: Method::DELETE, url: self.url("/__mocks"), content_type: None, body: None }
    }

    /// Creates a mock. `mock_json` is the mock definition encoded as JSON, or
    /// why it could not be encoded; `execute` carries out a request and
    /// `decode` reads the identification of the new mock from the body.
    /// Expects the status 201.
    pub fn create_mock<T, F, D>(&self, mock_json: Result<String, String>, execute: F, decode: D) -> (r: Result<T, AdapterError>)
        where
            F: FnOnce(HttpRequest) -> Result<HttpResponse, String>,
            D: FnOnce(String) -> Result<T, String>,
        requires
            forall|req: HttpRequest| execute.requires((req,)),
            forall|body: String| decode.requires((body,)),
        ensures
            mock_json is Err ==> r == Err::<T, AdapterError>(AdapterError::Serialization(mock_json->Err_0)),
            mock_json is Ok ==> exists|req: HttpRequest, out: Result<HttpResponse, String>|
                #[trigger] execute.ensures((req,), out)
                && is_request(req, Method::POST, self.url_spec(mocks_path()), Some(mock_json->Ok_0@))
                && concluded(expected_outcome(201, out), decode, r),
    {
        match mock_json {
            Err(e) => Err(AdapterError::Serialization(e)),
            Ok(json) => {
                let req = self.create_request(json);
                let ghost sent = req;
                let out = execute(req);
                let ghost got = out;
                let checked = evaluate_response(201, out);
                let r = match checked {
                    Err(e) => Err(e),
                    Ok(body) => {
                        let ghost b = body;
                        let d = decode(body);
                        assert(decode.ensures((b,), d));
                        decode_result(d)
                    },
                };
                assert(execute.ensures((sent,), got));
                r
            },
        }
    }

    /// Fetches the mock with the given id; `decode` reads it from the body.
    /// Expects the status 200.
    pub fn fetch_mock<T, F, D>(&self, mock_id: usize, execute: F, decode: D) -> (r: Result<T, AdapterError>)
        where
            F: FnOnce(HttpRequest) -> Result<HttpResponse, String>,
            D: FnOnce(String) -> Result<T, String>,
        requires
            forall|req: HttpRequest| execute.requires((req,)),
            forall|body: String| decode.requires((body,)),
        ensures
            exists|req: HttpRequest, out: Result<HttpResponse, String>|
                #[trigger] execute.ensures((req,), out)
                && is_request(req, Method::GET, self.url_spec(mock_path(mock_id as nat)), None)
                && concluded(expected_outcome(200, out), decode, r),
    {
        let req = self.fetch_request(mock_id);
        let ghost sent = req;
        let out = execute(req);
        let ghost got = out;
        let checked = evaluate_response(200, out);
        let r = match checked {
            Err(e) => Err(e),
            Ok(body) => {
                let ghost b = body;
                let d = decode(body);
                assert(decode.ensures((b,), d));
                decode_result(d)
            },
        };
        assert(execute.ensures((sent,), got));
        r
    }

    /// Deletes the mock with the given id. Expects the status 202.
    pub fn delete_mock<F>(&self, mock_id: usize, execute: F) -> (r: Result<(), AdapterError>)
        where
            F: FnOnce(HttpRequest) -> Result<HttpResponse, String>,
        requires
            forall|req: HttpRequest| execute.requires((req,)),
        ensures
            exists|req: HttpRequest, out: Result<HttpResponse, String>|
                #[trigger] execute.ensures((req,), out)
                && is_request(req, Method::DELETE, self.url_spec(mock_path(mock_id as nat)), None)
                && r == unit_outcome(expected_outcome(202, out)),
    {
        let req = self.delete_request(mock_id);
        let ghost sent = req;
        let out = execute(req);
        let ghost got = out;
        let r = match evaluate_response(202, out) {
            Err(e) => Err(e),
            Ok(_) => Ok(()),
        };
        assert(execute.ensures((sent,), got));
        r
    }

    /// Deletes every mock on the server. Expects the status 202, which the
    /// server also sends when there was no mock to delete.
    pub fn delete_all_mocks<F>(&self, execute: F) -> (r: Result<(), AdapterError>)
        where
            F: FnOnce(HttpRequest) -> Result<HttpResponse, String>,
        requires
            forall|req: HttpRequest| execute.requires((req,)),
        ensures
            exists|req: HttpRequest, out: Result<HttpResponse, String>|
                #[trigger] execute.ensures((req,), out)
                && is_request(req, Method::DELETE, self.url_spec(mocks_path()), None)
                && r == unit_outcome(expected_outcome(202, out)),
    {
        let req = self.delete_all_request();
        let ghost sent = req;
        let out = execute(req);
        let ghost got = out;
        let r = match evaluate_response(202, out) {
            Err(e) => Err(e),
            Ok(_) => Ok(()),
        };
        assert(execute.ensures((sent,), got));
        r
    }
}

} // verus!
