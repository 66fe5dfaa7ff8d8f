//! Laws of the whole pipeline, each proved over [`run_spec`]: what a write
//! followed by a read returns, what a read of an unwritten key says, which
//! requests are rejected, and that every response is decorated.

use vstd::prelude::*;
use crate::fields::{body_fields, field_text_spec};
use crate::response::{
    decorated, found_body_spec, json_resp, missing_body_spec, missing_message_spec,
    put_ok_body_spec,
};
use crate::router::{Method, run_spec};

verus! {

/// The body's fields ask for a write of `key` to `value`.
pub open spec fn write_fields_give(body: Seq<char>, key: Seq<char>, value: Seq<char>) -> bool {
    body_fields(body) matches Some(f) && f.key matches Some(k) && f.value matches Some(v)
        && field_text_spec(k) == key && field_text_spec(v) == value
}

/// The body's fields ask for a read of `key`.
pub open spec fn read_fields_give(body: Seq<char>, key: Seq<char>) -> bool {
    body_fields(body) matches Some(f) && f.key matches Some(k) && field_text_spec(k) == key
}

/// The route paths are pairwise distinct texts.
proof fn lemma_paths_distinct()
    ensures
        "/"@ != "/hello"@,
        "/"@ != "/worker-version"@,
        "/"@ != "/add"@,
        "/"@ != "/get"@,
        "/hello"@ != "/get"@,
        "/worker-version"@ != "/get"@,
        "/add"@ != "/get"@,
        "/hello"@ != "/add"@,
        "/worker-version"@ != "/add"@,
{
    reveal_strlit("/");
    reveal_strlit("/hello");
    reveal_strlit("/worker-version");
    reveal_strlit("/add");
    reveal_strlit("/get");
    assert("/"@.len() == 1);
    assert("/hello"@.len() == 6);
    assert("/worker-version"@.len() == 15);
    assert("/add"@.len() == 4);
    assert("/get"@.len() == 4);
    assert("/add"@[1] != "/get"@[1]);
}

/// Round trip: a well-formed write of a key, followed by a read of the same
/// key, returns the written value in a success envelope, whatever the store
/// held before; the read changes nothing.
pub proof fn lemma_write_then_read_round_trip(
    write_body: Seq<char>,
    read_body: Seq<char>,
    read_method: Method,
    key: Seq<char>,
    value: Seq<char>,
    version: Option<Seq<char>>,
    store: Map<Seq<char>, Seq<char>>,
)
    requires
        write_fields_give(write_body, key, value),
        read_fields_give(read_body, key),
    ensures
        ({
            let (w, store1) = run_spec(Method::Post, "/add"@, write_body, version, store);
            let (r, store2) = run_spec(read_method, "/get"@, read_body, version, store1);
            w == decorated(json_resp(200, put_ok_body_spec())) && r == decorated(
                json_resp(200, found_body_spec(value)),
            ) && store2 == store1
        }),
{
    lemma_paths_distinct();
}

/// A read of a key the store does not hold returns a message envelope whose
/// message holds the requested key verbatim, and leaves the store unchanged.
pub proof fn lemma_read_absent_names_key(
    read_body: Seq<char>,
    read_method: Method,
    key: Seq<char>,
    version: Option<Seq<char>>,
    store: Map<Seq<char>, Seq<char>>,
)
    requires
        read_fields_give(read_body, key),
        !store.contains_key(key),
    ensures
        ({
            let (r, store1) = run_spec(read_method, "/get"@, read_body, version, store);
            r == decorated(json_resp(200, missing_body_spec(key))) && store1 == store
        }),
        missing_message_spec(key).subrange(23, 23 + key.len() as int) == key,
{
    lemma_paths_distinct();
    reveal_strlit("no value found for key ");
    assert(missing_message_spec(key).subrange(23, 23 + key.len() as int) =~= key);
}

/// A request to the write or the read route whose body is not valid JSON or
/// has no `key` field is answered with a plain-text 400 — no JSON envelope —
/// and the store is left unchanged.
pub proof fn lemma_missing_key_is_rejected(
    m: Method,
    path: Seq<char>,
    body: Seq<char>,
    version: Option<Seq<char>>,
    store: Map<Seq<char>, Seq<char>>,
)
    requires
        (m == Method::Post && path == "/add"@) || path == "/get"@,
        body_fields(body) is None || (body_fields(body) matches Some(f) && f.key is None),
    ensures
        ({
            let (r, store1) = run_spec(m, path, body, version, store);
            r.status == 400 && !r.json && r.cors && store1 == store
        }),
{
    lemma_paths_distinct();
}

/// A write request with a `key` but no `value` is answered with a
/// plain-text 400, and the store is left unchanged.
pub proof fn lemma_add_missing_value_is_rejected(
    body: Seq<char>,
    version: Option<Seq<char>>,
    store: Map<Seq<char>, Seq<char>>,
)
    requires
        body_fields(body) matches Some(f) && f.key is Some && f.value is None,
    ensures
        ({
            let (r, store1) = run_spec(Method::Post, "/add"@, body, version, store);
            r.status == 400 && !r.json && store1 == store
        }),
{
}

/// A write request with both fields present always succeeds against a
/// healthy store: a success envelope comes back and the store afterwards
/// binds the key to the value.
pub proof fn lemma_add_well_formed_succeeds(
    body: Seq<char>,
    key: Seq<char>,
    value: Seq<char>,
    version: Option<Seq<char>>,
    store: Map<Seq<char>, Seq<char>>,
)
    requires
        write_fields_give(body, key, value),
    ensures
        ({
            let (r, store1) = run_spec(Method::Post, "/add"@, body, version, store);
            r == decorated(json_resp(200, put_ok_body_spec())) && store1 == store.insert(
                key,
                value,
            )
        }),
{
}

/// Every response of every route carries the cross-origin header: success
/// envelopes and plain-text errors alike.
pub proof fn lemma_every_response_is_decorated(
    m: Method,
    path: Seq<char>,
    body: Seq<char>,
    version: Option<Seq<char>>,
    store: Map<Seq<char>, Seq<char>>,
)
    ensures
        run_spec(m, path, body, version, store).0.cors,
{
}

} // verus!
