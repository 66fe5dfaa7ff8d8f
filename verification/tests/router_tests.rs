use kv_router::escape::json_escape;
use kv_router::fields::JsonField;
use kv_router::fields::field_text;
use kv_router::response::HttpResponse;
use kv_router::router::{Config, Dispatch, HttpRequest, Method, StoreOp, dispatch, finish_get, finish_put, handle};
use kv_router::store::{GetOutcome, MemStore, PutOutcome};

fn request(method: Method, path: &str, body: &str) -> HttpRequest {
    HttpRequest { method, path: path.to_string(), body: body.to_string() }
}

fn config() -> Config {
    Config { version: Some("0.1.0".to_string()) }
}

fn run(method: Method, path: &str, body: &str, store: &mut MemStore) -> HttpResponse {
    handle(&request(method, path, body), &config(), store)
}

#[test]
fn add_then_get_round_trips() {
    let mut store = MemStore::new();
    let w = run(Method::Post, "/add", "{\"key\":\"a\",\"value\":\"1\"}", &mut store);
    assert_eq!(w.status, 200);
    assert_eq!(w.body, "{\"success\":true}");
    assert!(w.json);
    let r = run(Method::Get, "/get", "{\"key\":\"a\"}", &mut store);
    assert_eq!(r.status, 200);
    assert_eq!(r.body, "{\"success\":true,\"value\":\"1\"}");
    assert!(r.json);
}

#[test]
fn get_of_unwritten_key_names_it() {
    let mut store = MemStore::new();
    let r = run(Method::Get, "/get", "{\"key\":\"missing\"}", &mut store);
    assert_eq!(r.status, 200);
    assert_eq!(r.body, "{\"success\":false,\"message\":\"no value found for key missing\"}");
    assert!(r.json);
}

#[test]
fn add_with_empty_object_is_rejected() {
    let mut store = MemStore::new();
    let r = run(Method::Post, "/add", "{}", &mut store);
    assert_eq!(r.status, 400);
    assert_eq!(r.body, "Missing key");
    assert!(!r.json);
}

#[test]
fn get_without_key_is_rejected() {
    let mut store = MemStore::new();
    let r = run(Method::Post, "/get", "{\"other\":1}", &mut store);
    assert_eq!(r.status, 400);
    assert_eq!(r.body, "Missing key");
    assert!(!r.json);
}

#[test]
fn invalid_json_is_rejected() {
    let mut store = MemStore::new();
    let r = run(Method::Post, "/add", "{\"key\"", &mut store);
    assert_eq!(r.status, 400);
    assert_eq!(r.body, "Bad request");
    assert!(!r.json);
}

#[test]
fn add_without_value_is_rejected() {
    let mut store = MemStore::new();
    let r = run(Method::Post, "/add", "{\"key\":\"a\"}", &mut store);
    assert_eq!(r.status, 400);
    assert_eq!(r.body, "Missing value");
    assert!(!r.json);
}

#[test]
fn get_answers_both_methods() {
    let mut store = MemStore::new();
    run(Method::Post, "/add", "{\"key\":\"k\",\"value\":\"v\"}", &mut store);
    let by_get = run(Method::Get, "/get", "{\"key\":\"k\"}", &mut store);
    let by_post = run(Method::Post, "/get", "{\"key\":\"k\"}", &mut store);
    assert_eq!(by_get.body, "{\"success\":true,\"value\":\"v\"}");
    assert_eq!(by_post.body, by_get.body);
}

#[test]
fn greeting_route_answers() {
    let mut store = MemStore::new();
    let r = run(Method::Get, "/", "", &mut store);
    assert_eq!(r.status, 200);
    assert_eq!(r.body, "Hello from Workers!");
    assert!(!r.json);
    assert!(r.cors);
}

#[test]
fn hello_route_greets_by_name() {
    let mut store = MemStore::new();
    let r = run(Method::Get, "/hello", "{\"name\":\"bob\"}", &mut store);
    assert_eq!(r.status, 200);
    assert_eq!(r.body, "{\"message\":\"hello, bob!\"}");
}

#[test]
fn hello_route_without_name_is_rejected() {
    let mut store = MemStore::new();
    let r = run(Method::Get, "/hello", "{}", &mut store);
    assert_eq!(r.status, 400);
    assert_eq!(r.body, "Missing name");
}

#[test]
fn version_route_reads_configuration() {
    let mut store = MemStore::new();
    let r = run(Method::Get, "/worker-version", "", &mut store);
    assert_eq!(r.status, 200);
    assert_eq!(r.body, "0.1.0");
}

#[test]
fn version_route_without_configuration_fails() {
    let mut store = MemStore::new();
    let r = handle(
        &request(Method::Get, "/worker-version", ""),
        &Config { version: None },
        &mut store,
    );
    assert_eq!(r.status, 500);
    assert_eq!(r.body, "Internal error");
}

#[test]
fn names_route_serves_fixture() {
    let mut store = MemStore::new();
    let r = run(Method::Get, "/names", "", &mut store);
    assert_eq!(r.status, 200);
    assert_eq!(
        r.body,
        "{\"names\":[{\"first\":\"John\",\"last\":\"Doe\"},{\"first\":\"Jane\",\"last\":\"Smith\"}]}"
    );
}

#[test]
fn unknown_route_is_not_found() {
    let mut store = MemStore::new();
    let r = run(Method::Get, "/nowhere", "", &mut store);
    assert_eq!(r.status, 404);
    assert_eq!(r.body, "Not found");
    assert!(!r.json);
}

#[test]
fn post_to_get_only_route_is_not_found() {
    let mut store = MemStore::new();
    let r = run(Method::Post, "/names", "", &mut store);
    assert_eq!(r.status, 404);
}

#[test]
fn non_string_fields_are_stringified() {
    let mut store = MemStore::new();
    let w = run(Method::Post, "/add", "{\"key\":1,\"value\":true}", &mut store);
    assert_eq!(w.body, "{\"success\":true}");
    let r = run(Method::Get, "/get", "{\"key\":1}", &mut store);
    assert_eq!(r.body, "{\"success\":true,\"value\":\"true\"}");
}

#[test]
fn null_and_composite_fields_are_stringified() {
    let mut store = MemStore::new();
    run(Method::Post, "/add", "{\"key\":null,\"value\":[1,2]}", &mut store);
    let r = run(Method::Get, "/get", "{\"key\":null}", &mut store);
    assert_eq!(r.body, "{\"success\":true,\"value\":\"[1,2]\"}");
}

#[test]
fn second_write_to_a_key_wins() {
    let mut store = MemStore::new();
    run(Method::Post, "/add", "{\"key\":\"a\",\"value\":\"1\"}", &mut store);
    run(Method::Post, "/add", "{\"key\":\"a\",\"value\":\"2\"}", &mut store);
    let r = run(Method::Get, "/get", "{\"key\":\"a\"}", &mut store);
    assert_eq!(r.body, "{\"success\":true,\"value\":\"2\"}");
}

#[test]
fn stored_value_is_escaped_in_the_envelope() {
    let mut store = MemStore::new();
    let w = run(
        Method::Post,
        "/add",
        "{\"key\":\"q\",\"value\":\"say \\\"hi\\\"\\n\"}",
        &mut store,
    );
    assert_eq!(w.status, 200);
    let r = run(Method::Get, "/get", "{\"key\":\"q\"}", &mut store);
    assert_eq!(r.body, "{\"success\":true,\"value\":\"say \\\"hi\\\"\\n\"}");
}

#[test]
fn absent_key_is_escaped_in_the_message() {
    let mut store = MemStore::new();
    let r = run(Method::Get, "/get", "{\"key\":\"x\\\"y\"}", &mut store);
    assert_eq!(r.body, "{\"success\":false,\"message\":\"no value found for key x\\\"y\"}");
}

#[test]
fn every_route_is_decorated() {
    let mut store = MemStore::new();
    let paths: [(Method, &str, &str); 6] = [
        (Method::Get, "/", ""),
        (Method::Get, "/worker-version", ""),
        (Method::Post, "/add", "not json"),
        (Method::Post, "/get", "{\"key\":\"a\"}"),
        (Method::Get, "/names", ""),
        (Method::Get, "/nowhere", ""),
    ];
    for (method, path, body) in paths {
        let r = run(method, path, body, &mut store);
        assert!(r.cors, "route {} lacks the cross-origin header", path);
    }
}

#[test]
fn read_failure_degrades_to_absence() {
    let key = "k".to_string();
    let r = finish_get(&key, &GetOutcome::Failed);
    assert_eq!(r.status, 200);
    assert_eq!(r.body, "{\"success\":false,\"message\":\"no value found for key k\"}");
}

#[test]
fn write_failure_propagates_loudly() {
    let r = finish_put(&PutOutcome::Failed("backend unreachable".to_string()));
    assert_eq!(r.status, 500);
    assert_eq!(r.body, "backend unreachable");
    assert!(!r.json);
}

#[test]
fn dispatch_yields_the_store_write() {
    let d = dispatch(
        &request(Method::Post, "/add", "{\"key\":\"a\",\"value\":\"1\"}"),
        &config(),
    );
    match d {
        Dispatch::Store(StoreOp::Put { key, value }) => {
            assert_eq!(key, "a");
            assert_eq!(value, "1");
        }
        _ => panic!("a well-formed write request must reach the store"),
    }
}

#[test]
fn memstore_reports_absence() {
    let store = MemStore::new();
    assert!(store.get(&"a".to_string()).is_none());
}

#[test]
fn field_text_stringifies_each_kind() {
    assert_eq!(field_text(&JsonField::Str("s".to_string())), "s");
    assert_eq!(field_text(&JsonField::Num("1.5".to_string())), "1.5");
    assert_eq!(field_text(&JsonField::Bool(false)), "false");
    assert_eq!(field_text(&JsonField::Null), "null");
    assert_eq!(field_text(&JsonField::Composite("[null]".to_string())), "[null]");
}

#[test]
fn control_characters_get_unicode_escapes() {
    assert_eq!(json_escape("a\u{1}b\u{1f}"), "a\\u0001b\\u001f");
    assert_eq!(json_escape("tab\there"), "tab\\there");
    assert_eq!(json_escape("back\\slash"), "back\\\\slash");
}
