//! HTTP methods, protocols and request descriptions.
use vstd::prelude::*;

verus! {

/// The HTTP methods the client can send, in the order in which the
/// method selector cycles through them.
#[derive(Debug, Clone, Copy, PartialEq, Eq, Structural, Hash)]
pub enum RequestType {
    GET,
    POST,
    DELETE,
    PATCH,
    PUT,
}

impl Default for RequestType {
    /// GET.
    fn default() -> (r: Self)
        ensures
            r == RequestType::GET,
    {
        RequestType::GET
    }
}

impl RequestType {
    /// Position of the method in the selector's cycle.
    pub open spec fn position(self) -> int {
        match self {
            RequestType::GET => 0,
            RequestType::POST => 1,
            RequestType::DELETE => 2,
            RequestType::PATCH => 3,
            RequestType::PUT => 4,
        }
    }

    /// The method at a position of the selector's cycle (positions taken modulo the cycle's length).
    pub open spec fn at_position(i: int) -> RequestType {
        let k = i % 5;
        if k == 0 {
            RequestType::GET
        } else if k == 1 {
            RequestType::POST
        } else if k == 2 {
            RequestType::DELETE
        } else if k == 3 {
            RequestType::PATCH
        } else {
            RequestType::PUT
        }
    }

    /// The method's name as written in the request line.
    pub open spec fn spec_name(self) -> Seq<char> {
        match self {
            RequestType::GET => "GET"@,
            RequestType::POST => "POST"@,
            RequestType::DELETE => "DELETE"@,
            RequestType::PATCH => "PATCH"@,
            RequestType::PUT => "PUT"@,
        }
    }

    /// Whether a request of this method carries the editor's body.
    pub open spec fn carries_body(self) -> bool {
        match self {
            RequestType::POST | RequestType::PUT | RequestType::PATCH => true,
            RequestType::GET | RequestType::DELETE => false,
        }
    }

    /// The method after this one in the cycle; the last wraps to the first.
    pub fn next(self) -> (r: RequestType)
        ensures
            r == RequestType::at_position(self.position() + 1),
    {
        match self {
            RequestType::GET => RequestType::POST,
            RequestType::POST => RequestType::DELETE,
            RequestType::DELETE => RequestType::PATCH,
            RequestType::PATCH => RequestType::PUT,
            RequestType::PUT => RequestType::GET,
        }
    }

    /// The method before this one in the cycle; the first wraps to the last.
    pub fn previous(self) -> (r: RequestType)
        ensures
            r == RequestType::at_position(self.position() + 4),
    {
        match self {
            RequestType::GET => RequestType::PUT,
            RequestType::POST => RequestType::GET,
            RequestType::DELETE => RequestType::POST,
            RequestType::PATCH => RequestType::DELETE,
            RequestType::PUT => RequestType::PATCH,
        }
    }

    /// The method's name, as the screen shows it (`GET`, `POST`, ...).
    pub fn name(self) -> (r: &'static str)
        ensures
            r@ == self.spec_name(),
    {
        match self {
            RequestType::GET => {
                proof {
                    reveal_strlit("GET");
                }
                "GET"
            },
            RequestType::POST => {
                proof {
                    reveal_strlit("POST");
                }
                "POST"
            },
            RequestType::DELETE => {
                proof {
                    reveal_strlit("DELETE");
                }
                "DELETE"
            },
            RequestType::PATCH => {
                proof {
                    reveal_strlit("PATCH");
                }
                "PATCH"
            },
            RequestType::PUT => {
                proof {
                    reveal_strlit("PUT");
                }
                "PUT"
            },
        }
    }
}

/// Going one step forward and one step back through the method cycle, in either
/// order, gives back the method one started from.
pub proof fn lemma_request_type_next_previous(t: RequestType)
    ensures
        RequestType::at_position(RequestType::at_position(t.position() + 1).position() + 4) == t,
        RequestType::at_position(RequestType::at_position(t.position() + 4).position() + 1) == t,
{
}

/// Five steps forward through the method cycle give back the method one started
/// from, and no single step stays in place: the cycle visits all five methods.
pub proof fn lemma_request_type_cycle(t: RequestType)
    ensures
        ({
            let t1 = RequestType::at_position(t.position() + 1);
            let t2 = RequestType::at_position(t1.position() + 1);
            let t3 = RequestType::at_position(t2.position() + 1);
            let t4 = RequestType::at_position(t3.position() + 1);
            let t5 = RequestType::at_position(t4.position() + 1);
            &&& t5 == t
            &&& t1 != t && t2 != t && t3 != t && t4 != t
        }),
{
}

/// The scheme a request is sent with.
#[derive(Debug, Clone, Copy, PartialEq, Eq, Structural, Hash)]
pub enum Protocol {
    HTTP,
    HTTPS,
}

impl Default for Protocol {
    /// HTTP.
    fn default() -> (r: Self)
        ensures
            r == Protocol::HTTP,
    {
        Protocol::HTTP
    }
}

impl Protocol {
    /// The scheme's name as it stands in a URL.
    pub open spec fn spec_scheme(self) -> Seq<char> {
        match self {
            Protocol::HTTP => "http"@,
            Protocol::HTTPS => "https"@,
        }
    }

    /// The other protocol.
    pub open spec fn spec_toggled(self) -> Protocol {
        match self {
            Protocol::HTTP => Protocol::HTTPS,
            Protocol::HTTPS => Protocol::HTTP,
        }
    }

    /// The scheme's name as it stands in a URL: `http` or `https`.
    pub fn scheme(self) -> (r: &'static str)
        ensures
            r@ == self.spec_scheme(),
    {
        match self {
            Protocol::HTTP => {
                proof {
                    reveal_strlit("http");
                }
                "http"
            },
            Protocol::HTTPS => {
                proof {
                    reveal_strlit("https");
                }
                "https"
            },
        }
    }

    /// The other protocol: HTTP becomes HTTPS and HTTPS becomes HTTP.
    pub fn toggled(self) -> (r: Protocol)
        ensures
            r == self.spec_toggled(),
    {
        match self {
            Protocol::HTTP => Protocol::HTTPS,
            Protocol::HTTPS => Protocol::HTTP,
        }
    }
}

/// Switching the protocol twice gives back the protocol one started from.
pub proof fn lemma_protocol_toggle_involutive(p: Protocol)
    ensures
        p.spec_toggled().spec_toggled() == p,
        p.spec_toggled() != p,
{
}


/// A request as the user composed it: a name for the history list, the
/// protocol, the method, the address without its scheme, and the body text.
#[derive(Debug, PartialEq, Eq, Hash)]
pub struct Request {
    pub name: String,
    pub protocol: Protocol,
    pub request_type: RequestType,
    pub url: String,
    pub body: String,
}

/// A request's content, with its texts as sequences of characters.
pub struct RequestView {
    pub name: Seq<char>,
    pub protocol: Protocol,
    pub request_type: RequestType,
    pub url: Seq<char>,
    pub body: Seq<char>,
}

impl View for Request {
    type V = RequestView;

    open spec fn view(&self) -> RequestView {
        RequestView {
            name: self.name@,
            protocol: self.protocol,
            request_type: self.request_type,
            url: self.url@,
            body: self.body@,
        }
    }
}

/// The address a request goes to: scheme, `://`, then the address as typed.
pub open spec fn spec_full_url(protocol: Protocol, url: Seq<char>) -> Seq<char> {
    protocol.spec_scheme() + "://"@ + url
}

/// How a request is listed: its method's name, `| `, then its name.
pub open spec fn spec_request_label(r: RequestView) -> Seq<char> {
    r.request_type.spec_name() + "| "@ + r.name
}

/// The pattern that an address, scheme included, has to match to be sent.
pub const URL_PATTERN: &'static str = "^(https?://)?([\\da-z.-]+)\\.([a-z.]{2,6})([/\\w .-]*)*/?$";

/// What compiling `pattern` with the `regex` crate and matching `text` against it
/// gives: `None` where the pattern does not compile, else whether `text` matches.
pub uninterp spec fn regex_match_outcome(pattern: Seq<char>, text: Seq<char>) -> Option<bool>;

/// Compiles `pattern` with `regex::Regex::new` and, where that succeeds, asks
/// `regex::Regex::is_match` whether `text` matches it. The contract claims only
/// that the outcome is determined by the pattern and the text; which texts a
/// pattern matches is left to the `regex` crate and not stated here.
#[verifier::external_body]
fn regex_match(pattern: &str, text: &str) -> (r: Option<bool>)
    ensures
        r == regex_match_outcome(pattern@, text@),
{
    match regex::Regex::new(pattern) {
        Ok(re) => Some(re.is_match(text)),
        Err(_) => None,
    }
}

/// Whether an address passes validation, given the outcome of matching it
/// against [`URL_PATTERN`]: only a successful match lets it through.
pub open spec fn spec_url_accepted(outcome: Option<bool>) -> bool {
    outcome == Some(true)
}

/// Reads the outcome of matching an address against [`URL_PATTERN`]: the
/// address is accepted exactly when the pattern compiled and matched.
pub fn url_accepted(outcome: Option<bool>) -> (r: bool)
    ensures
        r == spec_url_accepted(outcome),
{
    match outcome {
        Some(m) => m,
        None => false,
    }
}

impl Clone for Request {
    fn clone(&self) -> (r: Self)
        ensures
            r == *self,
    {
        Request {
            name: self.name.clone(),
            protocol: self.protocol,
            request_type: self.request_type,
            url: self.url.clone(),
            body: self.body.clone(),
        }
    }
}

impl Request {
    /// The full address the request goes to, e.g. `https://example.com/api`.
    pub fn full_url(&self) -> (r: String)
        ensures
            r@ == spec_full_url(self.protocol, self.url@),
    {
        let mut s = String::from_str(self.protocol.scheme());
        proof {
            reveal_strlit("://");
        }
        s.append("://");
        s.append(self.url.as_str());
        s
    }

    /// How the request is listed in history: `GET| name`.
    pub fn label(&self) -> (r: String)
        ensures
            r@ == spec_request_label(self@),
    {
        let mut s = String::from_str(self.request_type.name());
        proof {
            reveal_strlit("| ");
        }
        s.append("| ");
        s.append(self.name.as_str());
        s
    }

    /// Whether the full address (scheme included) matches [`URL_PATTERN`].
    pub fn is_valid(&self) -> (r: bool)
        ensures
            r == spec_url_accepted(
                regex_match_outcome(URL_PATTERN@, spec_full_url(self.protocol, self.url@)),
            ),
    {
        let url = self.full_url();
        url_accepted(regex_match(URL_PATTERN, url.as_str()))
    }

    /// What is put on the wire for this request, given the configured timeout
    /// in seconds: the method, the full address, and, for POST, PUT and PATCH,
    /// the body with the content type `application/json`.
    pub fn prepare(&self, timeout: u8) -> (r: PreparedRequest)
        ensures
            r@ == spec_prepared(self@, timeout),
    {
        let url = self.full_url();
        let (body, content_type) = match self.request_type {
            RequestType::POST | RequestType::PUT | RequestType::PATCH => (
                Some(self.body.clone()),
                Some(String::from_str(JSON_CONTENT_TYPE)),
            ),
            RequestType::GET | RequestType::DELETE => (None, None),
        };
        PreparedRequest { method: self.request_type, url, body, content_type, timeout_secs: timeout as u64 }
    }
}

/// The content type sent with a request body.
pub const JSON_CONTENT_TYPE: &'static str = "application/json";

/// A request ready to be sent: method, full address, the body and the value of
/// its `Content-Type` header where there is a body, and how many seconds the
/// request may take.
pub struct PreparedRequest {
    pub method: RequestType,
    pub url: String,
    pub body: Option<String>,
    pub content_type: Option<String>,
    pub timeout_secs: u64,
}

/// A prepared request, with its texts as sequences of characters.
pub struct PreparedView {
    pub method: RequestType,
    pub url: Seq<char>,
    pub body: Option<Seq<char>>,
    pub content_type: Option<Seq<char>>,
    pub timeout_secs: u64,
}

/// An optional string by its characters.
pub open spec fn opt_text(s: Option<String>) -> Option<Seq<char>> {
    match s {
        Some(t) => Some(t@),
        None => None,
    }
}

impl View for PreparedRequest {
    type V = PreparedView;

    open spec fn view(&self) -> PreparedView {
        PreparedView {
            method: self.method,
            url: self.url@,
            body: opt_text(self.body),
            content_type: opt_text(self.content_type),
            timeout_secs: self.timeout_secs,
        }
    }
}

/// What is sent for a request under a timeout: its method and full address;
/// for POST, PUT and PATCH its body as `application/json`, for GET and DELETE
/// neither body nor content type; and the timeout in seconds.
pub open spec fn spec_prepared(r: RequestView, timeout: u8) -> PreparedView {
    PreparedView {
        method: r.request_type,
        url: spec_full_url(r.protocol, r.url),
        body: if r.request_type.carries_body() { Some(r.body) } else { None },
        content_type: if r.request_type.carries_body() { Some(JSON_CONTENT_TYPE@) } else { None },
        timeout_secs: timeout as u64,
    }
}

/// What came back for a sent request: status code, body text and HTTP version.
pub struct ResponseData {
    pub status: u16,
    pub body: String,
    pub version: String,
}

} // verus!
