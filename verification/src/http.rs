//! What the control client computes: request targets, and the reading of a
//! health reply. Sending and receiving is the caller's part.

use vstd::prelude::*;
use vstd::string::StringExecFns;

verus! {

/// A JSON document of `serde_json`, carried as an opaque value.
#[verifier::external_type_specification]
#[verifier::external_body]
pub struct ExJsonValue(serde_json::Value);

/// The error of `serde_json`, carried as an opaque value.
#[verifier::external_type_specification]
#[verifier::external_body]
pub struct ExJsonError(serde_json::Error);

/// The document that `serde_json::from_str` reads from a text, if it reads one.
pub uninterp spec fn json_parsed(text: Seq<char>) -> Option<serde_json::Value>;

/// The member that `serde_json::Value::get` finds under a key.
pub uninterp spec fn json_member(v: serde_json::Value, key: Seq<char>) -> Option<
    serde_json::Value,
>;

/// The characters that `serde_json::Value::as_str` gives for a document.
pub uninterp spec fn json_text(v: serde_json::Value) -> Option<Seq<char>>;

/// Calls `serde_json::from_str` for a `serde_json::Value`. Trusted: the
/// outcome depends on the text alone, so success hands out the document named
/// [`json_parsed`], and failure means that there is none.
#[verifier::external_body]
fn json_parse(text: &str) -> (r: Result<serde_json::Value, serde_json::Error>)
    ensures
        match r {
            Ok(v) => json_parsed(text@) == Some(v),
            Err(_) => json_parsed(text@).is_none(),
        },
{
    serde_json::from_str::<serde_json::Value>(text)
}

/// Calls `serde_json::Value::get` with a string key. Trusted: the result is
/// the member named [`json_member`]; the source gives a member only for an
/// object that holds the key.
#[verifier::external_body]
fn json_get<'a>(v: &'a serde_json::Value, key: &str) -> (r: Option<&'a serde_json::Value>)
    ensures
        match r {
            Some(m) => json_member(*v, key@) == Some(*m),
            None => json_member(*v, key@).is_none(),
        },
{
    v.get(key)
}

/// Calls `serde_json::Value::as_str`. Trusted: the result holds the
/// characters named [`json_text`]; the source gives them only for a JSON
/// string.
#[verifier::external_body]
fn json_as_text<'a>(v: &'a serde_json::Value) -> (r: Option<&'a str>)
    ensures
        match r {
            Some(t) => json_text(*v) == Some(t@),
            None => json_text(*v).is_none(),
        },
{
    v.as_str()
}

/// Calls `to_string` on a `serde_json::Error`. Trusted; nothing is claimed of
/// the message.
#[verifier::external_body]
fn json_error_message(e: &serde_json::Error) -> (r: String) {
    e.to_string()
}

/// Why a reply could not be read.
#[derive(Debug, PartialEq, Eq)]
pub enum ReplyError {
    /// The body is no JSON document; the text says where reading stopped.
    Malformed(String),
}

impl ReplyError {
    /// The text that comes with the error.
    pub fn message(&self) -> (r: String)
        ensures
            *self == ReplyError::Malformed(r),
    {
        match self {
            ReplyError::Malformed(text) => text.clone(),
        }
    }
}

/// Whether a health reply reports a healthy controller: it has a member
/// `status` that is the JSON string `ok`.
pub open spec fn reports_healthy(v: serde_json::Value) -> bool {
    match json_member(v, "status"@) {
        Some(m) => json_text(m) == Some("ok"@),
        None => false,
    }
}

/// What a health reply with the body `text` means: whether it reports a
/// healthy controller, or nothing where the body is no JSON document.
pub open spec fn health_of_body(text: Seq<char>) -> Option<bool> {
    match json_parsed(text) {
        Some(v) => Some(reports_healthy(v)),
        None => None,
    }
}

/// Reads a parsed health reply.
pub fn status_is_ok(reply: &serde_json::Value) -> (r: bool)
    ensures
        r == reports_healthy(*reply),
{
    match json_get(reply, "status") {
        Some(member) => match json_as_text(member) {
            Some(text) => text.to_owned() == "ok".to_owned(),
            None => false,
        },
        None => false,
    }
}

/// Reads the body of a health reply.
pub fn health_from_body(text: &str) -> (r: Result<bool, ReplyError>)
    ensures
        match r {
            Ok(healthy) => health_of_body(text@) == Some(healthy),
            Err(_) => health_of_body(text@).is_none(),
        },
{
    match json_parse(text) {
        Ok(reply) => Ok(status_is_ok(&reply)),
        Err(e) => Err(ReplyError::Malformed(json_error_message(&e))),
    }
}

/// The endpoint of the candlestick call for a symbol and an interval. Both
/// are written into the query as they are.
pub open spec fn kline_endpoint_text(symbol: Seq<char>, interval: Seq<char>) -> Seq<char> {
    "/api/kline?symbol="@ + symbol + "&interval="@ + interval
}

/// The endpoint of the candlestick call for a symbol and an interval.
pub fn kline_endpoint(symbol: &str, interval: &str) -> (r: String)
    ensures
        r@ == kline_endpoint_text(symbol@, interval@),
{
    let mut out = String::from_str("/api/kline?symbol=");
    out.append(symbol);
    out.append("&interval=");
    out.append(interval);
    out
}

/// One call of the control plane.
#[derive(Debug, PartialEq, Eq)]
pub enum ApiCall {
    /// Hands over the key and the initial capital.
    Configure,
    /// Starts the controller.
    Start,
    /// Stops the controller.
    Stop,
    /// Asks for the controller's status.
    Status,
    /// Asks for the net-value curve.
    NetValueHistory,
    /// Asks for the trades.
    TradeHistory,
    /// Asks for the candlestick series of a symbol at an interval.
    KLine(String, String),
    /// Asks whether the controller is alive.
    Health,
}

impl ApiCall {
    /// The request method of the call: `POST` for the three commands, `GET`
    /// for every query.
    pub open spec fn method_text(&self) -> Seq<char> {
        match self {
            ApiCall::Configure | ApiCall::Start | ApiCall::Stop => "POST"@,
            _ => "GET"@,
        }
    }

    /// The endpoint of the call.
    pub open spec fn endpoint_text(&self) -> Seq<char> {
        match self {
            ApiCall::Configure => "/api/configure"@,
            ApiCall::Start => "/api/start"@,
            ApiCall::Stop => "/api/stop"@,
            ApiCall::Status => "/api/status"@,
            ApiCall::NetValueHistory => "/api/net-value-history"@,
            ApiCall::TradeHistory => "/api/trade-history"@,
            ApiCall::KLine(symbol, interval) => kline_endpoint_text(symbol@, interval@),
            ApiCall::Health => "/api/health"@,
        }
    }

    /// The request method of the call.
    pub fn method(&self) -> (r: &'static str)
        ensures
            r@ == self.method_text(),
    {
        match self {
            ApiCall::Configure | ApiCall::Start | ApiCall::Stop => "POST",
            _ => "GET",
        }
    }

    /// The endpoint of the call.
    pub fn endpoint(&self) -> (r: String)
        ensures
            r@ == self.endpoint_text(),
    {
        match self {
            ApiCall::Configure => String::from_str("/api/configure"),
            ApiCall::Start => String::from_str("/api/start"),
            ApiCall::Stop => String::from_str("/api/stop"),
            ApiCall::Status => String::from_str("/api/status"),
            ApiCall::NetValueHistory => String::from_str("/api/net-value-history"),
            ApiCall::TradeHistory => String::from_str("/api/trade-history"),
            ApiCall::KLine(symbol, interval) => kline_endpoint(symbol.as_str(), interval.as_str()),
            ApiCall::Health => String::from_str("/api/health"),
        }
    }
}

/// The control client's address book: the base that every endpoint is
/// appended to.
#[derive(Debug)]
pub struct HttpService {
    base_url: String,
}

impl View for HttpService {
    type V = Seq<char>;

    closed spec fn view(&self) -> Seq<char> {
        self.base_url@
    }
}

impl Clone for HttpService {
    fn clone(&self) -> (r: HttpService)
        ensures
            r@ == self@,
    {
        HttpService { base_url: self.base_url.clone() }
    }
}

impl Default for HttpService {
    fn default() -> (r: HttpService)
        ensures
            r@ == Seq::<char>::empty(),
    {
        HttpService { base_url: String::new() }
    }
}

impl HttpService {
    /// A service with an empty base: endpoints are used as they are.
    pub fn new() -> (r: HttpService)
        ensures
            r@ == Seq::<char>::empty(),
    {
        HttpService { base_url: String::new() }
    }

    /// A service for the given base.
    pub fn with_base_url(base_url: &str) -> (r: HttpService)
        ensures
            r@ == base_url@,
    {
        HttpService { base_url: String::from_str(base_url) }
    }

    /// The base.
    pub fn base_url(&self) -> (r: &str)
        ensures
            r@ == self@,
    {
        self.base_url.as_str()
    }

    /// The address of an endpoint: the base, then the endpoint.
    pub fn request_url(&self, endpoint: &str) -> (r: String)
        ensures
            r@ == self@ + endpoint@,
    {
        let mut out = self.base_url.clone();
        out.append(endpoint);
        out
    }

    /// The address of a call: the base, then the call's endpoint.
    pub fn call_url(&self, call: &ApiCall) -> (r: String)
        ensures
            r@ == self@ + call.endpoint_text(),
    {
        let endpoint = call.endpoint();
        self.request_url(endpoint.as_str())
    }
}

} // verus!
