//! The outbound side: the response model, the uniform JSON response
//! envelopes, and the cross-origin decorator.

use vstd::prelude::*;
use vstd::string::*;
use crate::escape::{json_escape, json_escape_spec};

verus! {

/// A completed HTTP response: a status code, a body, whether the body is a
/// JSON envelope (the content type), and whether the cross-origin
/// `Access-Control-Allow-Origin: *` header is attached.
pub struct HttpResponse {
    pub status: u16,
    pub body: String,
    pub json: bool,
    pub cors: bool,
}

/// The mathematical value of an [`HttpResponse`].
pub struct RespV {
    pub status: u16,
    pub body: Seq<char>,
    pub json: bool,
    pub cors: bool,
}

impl View for HttpResponse {
    type V = RespV;

    open spec fn view(&self) -> RespV {
        RespV { status: self.status, body: self.body@, json: self.json, cors: self.cors }
    }
}

/// An undecorated plain-text response.
pub open spec fn text_resp(status: u16, body: Seq<char>) -> RespV {
    RespV { status, body, json: false, cors: false }
}

/// An undecorated JSON response.
pub open spec fn json_resp(status: u16, body: Seq<char>) -> RespV {
    RespV { status, body, json: true, cors: false }
}

/// The envelope for a read that found a value.
pub open spec fn found_body_spec(value: Seq<char>) -> Seq<char> {
    "{\"success\":true,\"value\":\""@ + json_escape_spec(value) + "\"}"@
}

/// The message explaining a read that found nothing, naming the key.
pub open spec fn missing_message_spec(key: Seq<char>) -> Seq<char> {
    "no value found for key "@ + key
}

/// The envelope for a read that found nothing.
pub open spec fn missing_body_spec(key: Seq<char>) -> Seq<char> {
    "{\"success\":false,\"message\":\""@ + json_escape_spec(missing_message_spec(key)) + "\"}"@
}

/// The envelope for an accepted write.
pub open spec fn put_ok_body_spec() -> Seq<char> {
    "{\"success\":true}"@
}

/// The envelope for the greeting route.
pub open spec fn hello_body_spec(name: Seq<char>) -> Seq<char> {
    "{\"message\":\""@ + json_escape_spec("hello, "@ + name + "!"@) + "\"}"@
}

/// The fixture served by the names route.
pub open spec fn names_body_spec() -> Seq<char> {
    "{\"names\":[{\"first\":\"John\",\"last\":\"Doe\"},{\"first\":\"Jane\",\"last\":\"Smith\"}]}"@
}

/// Builds a plain-text response.
pub fn make_text(status: u16, body: &str) -> (r: HttpResponse)
    ensures
        r@ == text_resp(status, body@),
{
    HttpResponse { status, body: String::from_str(body), json: false, cors: false }
}

/// Builds the envelope for a read that found a value.
pub fn envelope_found(value: &str) -> (r: HttpResponse)
    ensures
        r@ == json_resp(200, found_body_spec(value@)),
{
    let mut body = String::from_str("{\"success\":true,\"value\":\"");
    let escaped = json_escape(value);
    body.append(escaped.as_str());
    body.append("\"}");
    HttpResponse { status: 200, body, json: true, cors: false }
}

/// Builds the envelope for a read that found nothing, naming the key.
pub fn envelope_missing(key: &str) -> (r: HttpResponse)
    ensures
        r@ == json_resp(200, missing_body_spec(key@)),
{
    let mut message = String::from_str("no value found for key ");
    message.append(key);
    let mut body = String::from_str("{\"success\":false,\"message\":\"");
    let escaped = json_escape(message.as_str());
    body.append(escaped.as_str());
    body.append("\"}");
    HttpResponse { status: 200, body, json: true, cors: false }
}

/// Builds the envelope for an accepted write.
pub fn envelope_put_ok() -> (r: HttpResponse)
    ensures
        r@ == json_resp(200, put_ok_body_spec()),
{
    HttpResponse {
        status: 200,
        body: String::from_str("{\"success\":true}"),
        json: true,
        cors: false,
    }
}

/// Builds the greeting envelope.
pub fn envelope_hello(name: &str) -> (r: HttpResponse)
    ensures
        r@ == json_resp(200, hello_body_spec(name@)),
{
    let mut message = String::from_str("hello, ");
    message.append(name);
    message.append("!");
    let mut body = String::from_str("{\"message\":\"");
    let escaped = json_escape(message.as_str());
    body.append(escaped.as_str());
    body.append("\"}");
    HttpResponse { status: 200, body, json: true, cors: false }
}

/// Builds the names fixture response.
pub fn envelope_names() -> (r: HttpResponse)
    ensures
        r@ == json_resp(200, names_body_spec()),
{
    HttpResponse {
        status: 200,
        body: String::from_str(
            "{\"names\":[{\"first\":\"John\",\"last\":\"Doe\"},{\"first\":\"Jane\",\"last\":\"Smith\"}]}",
        ),
        json: true,
        cors: false,
    }
}

/// The decorated form of a response: the same response with the
/// cross-origin header attached.
pub open spec fn decorated(r: RespV) -> RespV {
    RespV { cors: true, ..r }
}

/// Attaches the cross-origin header, changing nothing else; it never turns
/// a completed response into a failure.
pub fn decorate(r: HttpResponse) -> (d: HttpResponse)
    ensures
        d@ == decorated(r@),
{
    HttpResponse { cors: true, ..r }
}

} // verus!
