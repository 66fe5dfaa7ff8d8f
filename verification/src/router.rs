//! Request dispatch: routing on method and path, validation of required
//! body fields, translation of store outcomes into envelopes, and uniform
//! decoration of every outgoing response.

use vstd::prelude::*;
use vstd::string::*;
use crate::fields::{JsonField, RawFieldsV, body_fields, field_text, field_text_spec, parse_fields};
use crate::response::{
    HttpResponse, RespV, decorate, decorated, envelope_found, envelope_hello, envelope_missing,
    envelope_names, envelope_put_ok, found_body_spec, hello_body_spec, json_resp, make_text,
    missing_body_spec, names_body_spec, put_ok_body_spec, text_resp,
};
use crate::store::{GetOutcome, GetOutcomeV, MemStore, PutOutcome, PutOutcomeV};

verus! {

/// An HTTP method this router distinguishes.
#[derive(Clone, Copy, PartialEq, Eq, Structural, Debug)]
pub enum Method {
    Get,
    Post,
}

/// An inbound request, reduced to what routing reads: method, path, and the
/// raw body text.
pub struct HttpRequest {
    pub method: Method,
    pub path: String,
    pub body: String,
}

/// The deployment configuration the routes read: the version string, absent
/// when the deployment did not set it.
pub struct Config {
    pub version: Option<String>,
}

pub open spec fn opt_string_view(o: Option<String>) -> Option<Seq<char>> {
    match o {
        Some(s) => Some(s@),
        None => None,
    }
}

/// A store operation a route asks for after validation.
pub enum StoreOp {
    Get { key: String },
    Put { key: String, value: String },
}

/// The mathematical value of a [`StoreOp`].
pub enum StoreOpV {
    Get { key: Seq<char> },
    Put { key: Seq<char>, value: Seq<char> },
}

impl View for StoreOp {
    type V = StoreOpV;

    open spec fn view(&self) -> StoreOpV {
        match self {
            StoreOp::Get { key } => StoreOpV::Get { key: key@ },
            StoreOp::Put { key, value } => StoreOpV::Put { key: key@, value: value@ },
        }
    }
}

/// What dispatch decided: a completed response, or a store operation still
/// to be performed.
pub enum Dispatch {
    Done(HttpResponse),
    Store(StoreOp),
}

/// The mathematical value of a [`Dispatch`].
pub enum DispatchV {
    Done(RespV),
    Store(StoreOpV),
}

impl View for Dispatch {
    type V = DispatchV;

    open spec fn view(&self) -> DispatchV {
        match self {
            Dispatch::Done(r) => DispatchV::Done(r@),
            Dispatch::Store(op) => DispatchV::Store(op@),
        }
    }
}

/// Relies on `<str as PartialEq>::eq`: true exactly when the two texts hold
/// the same characters.
#[verifier::external_body]
fn str_eq(a: &str, b: &str) -> (r: bool)
    ensures
        r == (a@ == b@),
{
    a == b
}

/// What the greeting route answers, given the parsed body fields.
pub open spec fn hello_spec(fields: Option<RawFieldsV>) -> DispatchV {
    match fields {
        None => DispatchV::Done(text_resp(400, "Bad request"@)),
        Some(f) => match f.name {
            None => DispatchV::Done(text_resp(400, "Missing name"@)),
            Some(n) => DispatchV::Done(json_resp(200, hello_body_spec(field_text_spec(n)))),
        },
    }
}

/// What the version route answers, given the configured version.
pub open spec fn version_spec(version: Option<Seq<char>>) -> DispatchV {
    match version {
        Some(v) => DispatchV::Done(text_resp(200, v)),
        None => DispatchV::Done(text_resp(500, "Internal error"@)),
    }
}

/// What the write route decides, given the parsed body fields: a rejection,
/// or the store write to perform.
pub open spec fn add_spec(fields: Option<RawFieldsV>) -> DispatchV {
    match fields {
        None => DispatchV::Done(text_resp(400, "Bad request"@)),
        Some(f) => match f.key {
            None => DispatchV::Done(text_resp(400, "Missing key"@)),
            Some(k) => match f.value {
                None => DispatchV::Done(text_resp(400, "Missing value"@)),
                Some(v) => DispatchV::Store(
                    StoreOpV::Put { key: field_text_spec(k), value: field_text_spec(v) },
                ),
            },
        },
    }
}

/// What the read route decides, given the parsed body fields: a rejection,
/// or the store read to perform.
pub open spec fn get_spec(fields: Option<RawFieldsV>) -> DispatchV {
    match fields {
        None => DispatchV::Done(text_resp(400, "Bad request"@)),
        Some(f) => match f.key {
            None => DispatchV::Done(text_resp(400, "Missing key"@)),
            Some(k) => DispatchV::Store(StoreOpV::Get { key: field_text_spec(k) }),
        },
    }
}

/// The route table: what each method and path decide, before decoration.
/// The read route answers to both methods; every other route is bound to
/// one.
pub open spec fn dispatch_spec(
    m: Method,
    path: Seq<char>,
    body: Seq<char>,
    version: Option<Seq<char>>,
) -> DispatchV {
    if m == Method::Get && path == "/"@ {
        DispatchV::Done(text_resp(200, "Hello from Workers!"@))
    } else if m == Method::Get && path == "/hello"@ {
        hello_spec(body_fields(body))
    } else if m == Method::Get && path == "/worker-version"@ {
        version_spec(version)
    } else if m == Method::Post && path == "/add"@ {
        add_spec(body_fields(body))
    } else if path == "/get"@ {
        get_spec(body_fields(body))
    } else if m == Method::Get && path == "/names"@ {
        DispatchV::Done(json_resp(200, names_body_spec()))
    } else {
        DispatchV::Done(text_resp(404, "Not found"@))
    }
}

/// Routes one request: validates the body where the route requires fields,
/// and hands back either a completed (undecorated) response or the store
/// operation to perform.
pub fn dispatch(req: &HttpRequest, config: &Config) -> (r: Dispatch)
    ensures
        r@ == dispatch_spec(req.method, req.path@, req.body@, opt_string_view(config.version)),
{
    if req.method == Method::Get && str_eq(req.path.as_str(), "/") {
        Dispatch::Done(make_text(200, "Hello from Workers!"))
    } else if req.method == Method::Get && str_eq(req.path.as_str(), "/hello") {
        match parse_fields(req.body.as_str()) {
            None => Dispatch::Done(make_text(400, "Bad request")),
            Some(f) => match f.name {
                None => Dispatch::Done(make_text(400, "Missing name")),
                Some(n) => {
                    let text = field_text(&n);
                    Dispatch::Done(envelope_hello(text.as_str()))
                },
            },
        }
    } else if req.method == Method::Get && str_eq(req.path.as_str(), "/worker-version") {
        match &config.version {
            Some(v) => Dispatch::Done(make_text(200, v.as_str())),
            None => Dispatch::Done(make_text(500, "Internal error")),
        }
    } else if req.method == Method::Post && str_eq(req.path.as_str(), "/add") {
        match parse_fields(req.body.as_str()) {
            None => Dispatch::Done(make_text(400, "Bad request")),
            Some(f) => match f.key {
                None => Dispatch::Done(make_text(400, "Missing key")),
                Some(k) => match f.value {
                    None => Dispatch::Done(make_text(400, "Missing value")),
                    Some(v) => Dispatch::Store(
                        StoreOp::Put { key: field_text(&k), value: field_text(&v) },
                    ),
                },
            },
        }
    } else if str_eq(req.path.as_str(), "/get") {
        match parse_fields(req.body.as_str()) {
            None => Dispatch::Done(make_text(400, "Bad request")),
            Some(f) => match f.key {
                None => Dispatch::Done(make_text(400, "Missing key")),
                Some(k) => Dispatch::Store(StoreOp::Get { key: field_text(&k) }),
            },
        }
    } else if req.method == Method::Get && str_eq(req.path.as_str(), "/names") {
        Dispatch::Done(envelope_names())
    } else {
        Dispatch::Done(make_text(404, "Not found"))
    }
}

/// The envelope for a read outcome: a found value in a success envelope, a
/// definite absence in a message envelope naming the key, and an internal
/// read failure deliberately folded into the same absence envelope — reads
/// degrade, they never fail the request.
pub open spec fn finish_get_spec(key: Seq<char>, out: GetOutcomeV) -> RespV {
    match out {
        GetOutcomeV::Found(v) => json_resp(200, found_body_spec(v)),
        GetOutcomeV::Absent => json_resp(200, missing_body_spec(key)),
        GetOutcomeV::Failed => json_resp(200, missing_body_spec(key)),
    }
}

/// Translates a read outcome into its (undecorated) response.
pub fn finish_get(key: &String, out: &GetOutcome) -> (r: HttpResponse)
    ensures
        r@ == finish_get_spec(key@, out@),
{
    match out {
        GetOutcome::Found(v) => envelope_found(v.as_str()),
        GetOutcome::Absent => envelope_missing(key.as_str()),
        GetOutcome::Failed => envelope_missing(key.as_str()),
    }
}

/// The envelope for a write outcome: acceptance in a success envelope, and
/// a failure propagated loudly with the backend's message — writes never
/// degrade silently.
pub open spec fn finish_put_spec(out: PutOutcomeV) -> RespV {
    match out {
        PutOutcomeV::Accepted => json_resp(200, put_ok_body_spec()),
        PutOutcomeV::Failed(m) => text_resp(500, m),
    }
}

/// Translates a write outcome into its (undecorated) response.
pub fn finish_put(out: &PutOutcome) -> (r: HttpResponse)
    ensures
        r@ == finish_put_spec(out@),
{
    match out {
        PutOutcome::Accepted => envelope_put_ok(),
        PutOutcome::Failed(m) => make_text(500, m.as_str()),
    }
}

/// What one request does against a healthy store: the decorated response,
/// and the store contents afterwards.
pub open spec fn run_spec(
    m: Method,
    path: Seq<char>,
    body: Seq<char>,
    version: Option<Seq<char>>,
    store: Map<Seq<char>, Seq<char>>,
) -> (RespV, Map<Seq<char>, Seq<char>>) {
    match dispatch_spec(m, path, body, version) {
        DispatchV::Done(r) => (decorated(r), store),
        DispatchV::Store(StoreOpV::Get { key }) => (
            decorated(
                finish_get_spec(
                    key,
                    if store.contains_key(key) {
                        GetOutcomeV::Found(store[key])
                    } else {
                        GetOutcomeV::Absent
                    },
                ),
            ),
            store,
        ),
        DispatchV::Store(StoreOpV::Put { key, value }) => (
            decorated(finish_put_spec(PutOutcomeV::Accepted)),
            store.insert(key, value),
        ),
    }
}

/// Handles one request against an in-memory store: dispatch, the store
/// operation if the route asked for one, the envelope, and — on every path
/// — the cross-origin decoration.
pub fn handle(req: &HttpRequest, config: &Config, store: &mut MemStore) -> (r: HttpResponse)
    ensures
        r@ == run_spec(
            req.method,
            req.path@,
            req.body@,
            opt_string_view(config.version),
            old(store)@,
        ).0,
        final(store)@ == run_spec(
            req.method,
            req.path@,
            req.body@,
            opt_string_view(config.version),
            old(store)@,
        ).1,
{
    match dispatch(req, config) {
        Dispatch::Done(r) => decorate(r),
        Dispatch::Store(StoreOp::Get { key }) => {
            let out = match store.get(&key) {
                Some(v) => GetOutcome::Found(v),
                None => GetOutcome::Absent,
            };
            decorate(finish_get(&key, &out))
        },
        Dispatch::Store(StoreOp::Put { key, value }) => {
            store.put(key, value);
            decorate(finish_put(&PutOutcome::Accepted))
        },
    }
}

} // verus!
