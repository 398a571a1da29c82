//! Request descriptors, pagination, and the step from a descriptor to the
//! HTTP call that a transport has to make.

use crate::decimal::{decimal_digits, to_decimal};
use crate::error::RestError;
use crate::url::{encoded_segments, Route, RouteView};
use vstd::prelude::*;
use vstd::string::*;
use vstd::utf8::encode_utf8;

verus! {

/// The base URL of the production API.
pub const PUBLIC_API: &'static str = "https://api.gdax.com";

/// The base URL of the sandbox API.
pub const SANDBOX_API: &'static str = "https://api-public.sandbox.gdax.com";

/// The `User-Agent` header that every request carries.
pub const USER_AGENT: &'static str = "gdax_rs/0.1.0";

/// The method of an HTTP request.
#[derive(Copy, Clone, Debug, PartialEq, Eq, Structural)]
pub enum Method {
    Options,
    Get,
    Post,
    Put,
    Delete,
    Head,
    Trace,
    Connect,
    Patch,
}

/// One side of a page boundary: the records before, or after, the record
/// with the given identifier.
#[derive(Copy, Clone, Debug, PartialEq, Eq, Structural)]
pub enum Cursor {
    Before(usize),
    After(usize),
}

/// A page of a paginated endpoint: a cursor and, if set, the most records
/// that the page may hold.
#[derive(Copy, Clone, Debug, PartialEq, Eq, Structural)]
pub struct Pagination {
    pub page: Cursor,
    pub limit: Option<u32>,
}

impl Cursor {
    /// The cursor as a query parameter that opens a query string:
    /// `?before={id}` or `?after={id}`.
    pub open spec fn query(self) -> Seq<char> {
        match self {
            Cursor::Before(id) => "?before="@ + decimal_digits(id as nat),
            Cursor::After(id) => "?after="@ + decimal_digits(id as nat),
        }
    }

    /// Renders the cursor as the query parameter that `query` describes.
    pub fn to_query(&self) -> (r: String)
        ensures
            r@ == self.query(),
    {
        match *self {
            Cursor::Before(id) => {
                let digits = to_decimal(id as u64);
                String::from_str("?before=").concat(digits.as_str())
            },
            Cursor::After(id) => {
                let digits = to_decimal(id as u64);
                String::from_str("?after=").concat(digits.as_str())
            },
        }
    }
}

impl Pagination {
    /// The query string of the page: the cursor, then `&limit={n}` where a
    /// limit is set.
    pub open spec fn query(self) -> Seq<char> {
        match self.limit {
            Some(n) => self.page.query() + "&limit="@ + decimal_digits(n as nat),
            None => self.page.query(),
        }
    }

    /// Renders the page as the query string that `query` describes.
    pub fn to_query(&self) -> (r: String)
        ensures
            r@ == self.query(),
    {
        let mut out = self.page.to_query();
        match self.limit {
            Some(n) => {
                let digits = to_decimal(n as u64);
                out.append("&limit=");
                out.append(digits.as_str());
            },
            None => {},
        }
        out
    }
}

/// The query string that an optional page adds to a URI: nothing where
/// there is no page.
pub open spec fn page_query(pagination: Option<Pagination>) -> Seq<char> {
    match pagination {
        Some(p) => p.query(),
        None => Seq::empty(),
    }
}

/// The mathematical content of a [`RestRequest`].
pub struct RestRequestView {
    pub http_method: Method,
    pub route: RouteView,
    pub body: Seq<char>,
    pub pagination: Option<Pagination>,
}

impl RestRequestView {
    /// The text of the request's URI below `api_url`: the base URL, the
    /// rendered route, then the page's query string, which therefore
    /// always comes last.
    pub open spec fn uri(self, api_url: Seq<char>) -> Seq<char> {
        api_url + self.route.render() + page_query(self.pagination)
    }
}

/// What an endpoint asks of the transport: a method, a route, a body and,
/// for a paginated endpoint, a page.
#[derive(Debug, PartialEq)]
pub struct RestRequest {
    pub http_method: Method,
    pub route: Route,
    pub body: String,
    pub pagination: Option<Pagination>,
}

impl View for RestRequest {
    type V = RestRequestView;

    open spec fn view(&self) -> RestRequestView {
        RestRequestView {
            http_method: self.http_method,
            route: self.route@,
            body: self.body@,
            pagination: self.pagination,
        }
    }
}

/// The request of a `GET` endpoint: the route whose path holds the given
/// segments, each percent-encoded, and whose query holds the given
/// attributes; an empty body; the given page.
pub open spec fn get_request(
    segments: Seq<Seq<char>>,
    attributes: Seq<(Seq<char>, Seq<char>)>,
    pagination: Option<Pagination>,
) -> RestRequestView {
    RestRequestView {
        http_method: Method::Get,
        route: RouteView {
            segments: encoded_segments(segments),
            attributes,
        },
        body: Seq::empty(),
        pagination,
    }
}

/// A value that describes one REST operation: it can say which request
/// the operation takes.
pub trait EndPointRequest {
    /// The request of this endpoint, as a function of the endpoint's
    /// value alone.
    spec fn request(&self) -> RestRequestView;

    /// Builds the request of this endpoint. The result is `request()`,
    /// whenever and however often it is asked for.
    fn create_request(&self) -> (r: RestRequest)
        ensures
            r@ == self.request(),
    ;
}

/// The length in bytes of a text's UTF-8 encoding, as `str::len` gives it.
pub open spec fn byte_length(text: Seq<char>) -> usize {
    encode_utf8(text).len() as usize
}

/// An endpoint has one request: whatever two calls of `create_request` on
/// one endpoint value hand back, the two requests have the same method,
/// route, body and page.
pub proof fn create_request_is_repeatable<E: EndPointRequest>(
    endpoint: &E,
    first: RestRequest,
    second: RestRequest,
)
    requires
        first@ == endpoint.request(),
        second@ == endpoint.request(),
    ensures
        first@ == second@,
        first.http_method == second.http_method,
        first.route@ == second.route@,
        first.body@ == second.body@,
        first.pagination == second.pagination,
{
}


/// `hyper::Uri`: a parsed URI. It is carried to the transport as it came
/// from the parser; nothing is claimed of what it holds.
#[verifier::external_type_specification]
#[verifier::external_body]
pub struct ExUri(hyper::Uri);

/// `hyper::error::UriError`: why the parser refused a text. Nothing is
/// claimed of what it holds.
#[verifier::external_type_specification]
#[verifier::external_body]
pub struct ExUriError(hyper::error::UriError);

/// What `hyper::Uri`'s parser makes of a text: the parsed URI, or why it
/// refused the text.
pub uninterp spec fn uri_parsed(text: Seq<char>) -> Result<hyper::Uri, hyper::error::UriError>;

/// Whether `hyper::Uri`'s parser accepts the text.
pub open spec fn uri_accepted(text: Seq<char>) -> bool {
    uri_parsed(text) is Ok
}

/// Calls `hyper::Uri`'s `from_str`. The parser reads nothing but the
/// text, so what it hands back depends on the text alone; the contract
/// names that outcome and claims nothing of what the parsed value holds.
#[verifier::external_body]
fn parse_uri(text: &str) -> (r: Result<hyper::Uri, hyper::error::UriError>)
    ensures
        r == uri_parsed(text@),
{
    text.parse::<hyper::Uri>()
}

/// An HTTP call, ready for a transport to make.
#[derive(Debug)]
pub struct HttpCall {
    pub http_method: Method,
    /// The parsed URI of the call.
    pub uri: hyper::Uri,
    /// The text that `uri` was parsed from.
    pub target: String,
    pub body: String,
    /// The `Content-Length` header: the body's length in bytes.
    pub content_length: u64,
    /// The `User-Agent` header.
    pub user_agent: &'static str,
}

impl RestRequest {
    /// Renders the URI of the request below `api_url`.
    pub fn uri(&self, api_url: &str) -> (r: String)
        ensures
            r@ == self@.uri(api_url@),
    {
        let mut out = String::from_str(api_url);
        let route = self.route.to_string();
        out.append(route.as_str());
        match self.pagination {
            Some(p) => {
                let query = p.to_query();
                out.append(query.as_str());
            },
            None => {},
        }
        assert(out@ =~= self@.uri(api_url@));
        out
    }

    /// Makes the call of a request whose URI text is `target`, given what
    /// the URI parser made of that text: the call with the request's
    /// method and body where it parsed, `UriError` with the text where it
    /// did not.
    pub fn assemble(
        self,
        target: String,
        parsed: Result<hyper::Uri, hyper::error::UriError>,
    ) -> (r: Result<HttpCall, RestError>)
        ensures
            r.is_ok() == parsed.is_ok(),
            r matches Ok(call) ==> {
                &&& call.http_method == self.http_method
                &&& Ok::<hyper::Uri, hyper::error::UriError>(call.uri) == parsed
                &&& call.target@ == target@
                &&& call.body@ == self.body@
                &&& call.content_length == byte_length(self.body@)
                &&& call.user_agent@ == USER_AGENT@
            },
            r matches Err(e) ==> e == RestError::UriError(target),
    {
        match parsed {
            Ok(uri) => {
                let content_length = self.body.as_str().len() as u64;
                Ok(
                    HttpCall {
                        http_method: self.http_method,
                        uri,
                        target,
                        body: self.body,
                        content_length,
                        user_agent: USER_AGENT,
                    },
                )
            },
            Err(_) => Err(RestError::UriError(target)),
        }
    }

    /// Turns the request into the call to make below `api_url`: the URI is
    /// what the parser makes of the base URL, the route and the page's
    /// query string, in that order; the call carries the request's method
    /// and body, the body's length in bytes and the fixed `User-Agent`.
    /// Fails with `UriError` exactly where the URI parser does not accept
    /// the URI's text.
    pub fn into_call(self, api_url: &str) -> (r: Result<HttpCall, RestError>)
        ensures
            r.is_ok() == uri_accepted(self@.uri(api_url@)),
            r matches Ok(call) ==> {
                &&& call.http_method == self.http_method
                &&& uri_parsed(self@.uri(api_url@)) == Ok::<hyper::Uri, hyper::error::UriError>(
                    call.uri,
                )
                &&& call.target@ == self@.uri(api_url@)
                &&& call.body@ == self.body@
                &&& call.content_length == byte_length(self.body@)
                &&& call.user_agent@ == USER_AGENT@
            },
            r matches Err(e) ==> e.text() == self@.uri(api_url@) && e is UriError,
    {
        let target = self.uri(api_url);
        let parsed = parse_uri(target.as_str());
        self.assemble(target, parsed)
    }
}

/// The URI of a call is decided by its text: two calls made of the same
/// request below the same base URL go to the same URI.
pub proof fn call_uri_is_determined(text: Seq<char>, first: HttpCall, second: HttpCall)
    requires
        uri_parsed(text) == Ok::<hyper::Uri, hyper::error::UriError>(first.uri),
        uri_parsed(text) == Ok::<hyper::Uri, hyper::error::UriError>(second.uri),
    ensures
        first.uri == second.uri,
{
}

/// Whether an HTTP status code reports success: 200 to 299.
pub open spec fn is_success(status: u16) -> bool {
    200 <= status < 300
}

/// The text of the error for a response whose status is no success.
pub open spec fn unexpected_status(status: u16) -> Seq<char> {
    "unexpected status "@ + decimal_digits(status as nat)
}

/// Decides what a fully received response is worth: its body, to be
/// decoded, where the status reports success; a `TransportError` that
/// names the status where it does not.
pub fn accept_response(status: u16, body: Vec<u8>) -> (r: Result<Vec<u8>, RestError>)
    ensures
        is_success(status) ==> r == Ok::<Vec<u8>, RestError>(body),
        !is_success(status) ==> r is Err && r->Err_0 is TransportError && r->Err_0.text()
            == unexpected_status(status),
{
    if 200 <= status && status < 300 {
        Ok(body)
    } else {
        let digits = to_decimal(status as u64);
        Err(RestError::TransportError(String::from_str("unexpected status ").concat(digits.as_str())))
    }
}

/// Describes the call that `endpoint` takes below `api_url`: its request,
/// turned into a call, whose URI is what the parser makes of the base URL
/// followed by the request's route and page.
pub fn prepare_request<E: EndPointRequest>(api_url: &str, endpoint: &E) -> (r: Result<
    HttpCall,
    RestError,
>)
    ensures
        r.is_ok() == uri_accepted(endpoint.request().uri(api_url@)),
        r matches Ok(call) ==> {
            &&& call.http_method == endpoint.request().http_method
            &&& uri_parsed(endpoint.request().uri(api_url@)) == Ok::<
                hyper::Uri,
                hyper::error::UriError,
            >(call.uri)
            &&& call.target@ == endpoint.request().uri(api_url@)
            &&& call.body@ == endpoint.request().body
            &&& call.content_length == byte_length(endpoint.request().body)
            &&& call.user_agent@ == USER_AGENT@
        },
        r matches Err(e) ==> e.text() == endpoint.request().uri(api_url@) && e is UriError,
{
    endpoint.create_request().into_call(api_url)
}

} // verus!
