use hypertyper::auth::Auth;
use hypertyper::service::testing::{HttpTestService, TestDataLoader};
use hypertyper::service::{HttpGet, HttpPost, HttpService};
use hypertyper::HTTPError;

fn output_service() -> HttpTestService {
    let mut service = HttpTestService::new("tests/data/output");
    service.add_fixture("/users/foo/about", "{\"username\": \"foo\"}\n");
    service.add_fixture("/users", "{\"username\": \"foo\"}\n");
    service
}

fn input_loader() -> TestDataLoader {
    let mut loader = TestDataLoader::new("tests/data/input");
    loader.add_resource("user", "{\"username\": \"foo\"}\n");
    loader
}

#[test]
fn get_loads_data() {
    let response = output_service().get("/users/foo/about").unwrap();
    assert_eq!(response, "{\"username\": \"foo\"}");
}

#[test]
#[should_panic]
fn get_panics_if_data_does_not_exist() {
    let _ = output_service().get("/no-resource");
}

#[test]
fn post_loads_data() {
    let auth = Auth::new("my-api-key");
    let data = input_loader().load("user");
    let response = output_service().post("/users", &auth, &data).unwrap();
    assert_eq!(response.get("username").unwrap().as_str().unwrap(), "foo");
}

#[test]
#[should_panic]
fn post_panics_if_input_data_does_not_exist() {
    let auth = Auth::new("my-api-key");
    let data = input_loader().load("no-resource");
    let _ = output_service().post("/users", &auth, &data);
}

#[test]
#[should_panic]
fn post_panics_if_output_data_does_not_exist() {
    let auth = Auth::new("my-api-key");
    let data = input_loader().load("user");
    let _ = output_service().post("/admin", &auth, &data);
}

#[test]
fn get_trims_surrounding_whitespace() {
    let mut service = HttpTestService::new("root");
    service.add_fixture("/padded", "\n\t  {\"k\": 1}  \r\n");
    assert_eq!(service.get("/padded").unwrap(), "{\"k\": 1}");
}

#[test]
fn get_trims_all_unicode_whitespace() {
    let mut service = HttpTestService::new("root");
    service.add_fixture("/padded", "\u{000C}\u{000B}\u{00A0}\u{2028}x\u{0085}\u{3000}\u{2009}");
    let body = service.get("/padded").unwrap();
    assert_eq!(body, "x");
    assert_eq!(body, "\u{000C}\u{000B}\u{00A0}\u{2028}x\u{0085}\u{3000}\u{2009}".trim());
}

#[test]
fn get_of_whitespace_fixture_is_empty() {
    let mut service = HttpTestService::new("root");
    service.add_fixture("/blank", " \t\r\n ");
    assert_eq!(service.get("/blank").unwrap(), "");
}

#[test]
fn later_fixture_replaces_earlier_one() {
    let mut service = HttpTestService::new("root");
    service.add_fixture("/a", "first");
    service.add_fixture("/a", "second");
    assert_eq!(service.get("/a").unwrap(), "second");
}

#[test]
fn post_reports_malformed_fixture_as_serialization_failure() {
    let auth = Auth::new("my-api-key");
    let mut service = HttpTestService::new("root");
    service.add_fixture("/bad", "{not json");
    let response = service.post("/bad", &auth, &serde_json::Value::Null);
    assert!(matches!(response, Err(HTTPError::Serialization(_))));
}

#[test]
fn post_ignores_auth_and_data() {
    let mut service = HttpTestService::new("root");
    service.add_fixture("/users", "{\"username\": \"foo\"}");
    let a = service
        .post("/users", &Auth::new("key-one"), &serde_json::Value::Null)
        .unwrap();
    let b = service
        .post("/users", &Auth::new("key-two"), &serde_json::Value::Bool(true))
        .unwrap();
    assert_eq!(a, b);
}

#[test]
fn resource_path_concatenates_root_uri_and_extension() {
    let service = HttpTestService::new("tests/data/output");
    assert_eq!(service.resource_path("/users/foo/about"), "tests/data/output/users/foo/about.json");
    let loader = TestDataLoader::new("tests/data/input");
    assert_eq!(loader.resource_path("user"), "tests/data/input/user.json");
}

#[test]
fn loader_load_deserializes_resource() {
    let user = input_loader().load("user");
    assert_eq!(user.get("username").unwrap().as_str().unwrap(), "foo");
}

#[test]
fn try_load_is_total() {
    let loader = input_loader();
    assert!(loader.try_load("user").is_some());
    assert!(loader.try_load("no-resource").is_none());
    let mut bad = TestDataLoader::new("root");
    bad.add_resource("bad", "{not json");
    assert!(bad.try_load("bad").is_none());
}

#[test]
fn load_and_post_round_trip_to_equal_values() {
    let auth = Auth::new("my-api-key");
    let text = "{\"username\": \"foo\", \"n\": [1, 2, 3]}";
    let mut loader = TestDataLoader::new("tests/data/input");
    loader.add_resource("user", text);
    let mut service = HttpTestService::new("tests/data/output");
    service.add_fixture("/users", text);
    let loaded = loader.load("user");
    let posted = service.post("/users", &auth, &loaded).unwrap();
    assert_eq!(loaded, posted);
    let direct: serde_json::Value = serde_json::from_str(text).unwrap();
    assert_eq!(posted, direct);
}

fn call_through_service<S: HttpService>(service: &S, get_uri: &str, post_uri: &str) -> (String, serde_json::Value) {
    let auth = Auth::new("my-api-key");
    let body = service.get(get_uri).unwrap();
    let value = service.post(post_uri, &auth, &serde_json::Value::Null).unwrap();
    (body, value)
}

#[test]
fn get_and_post_compose_into_a_service() {
    let service = output_service();
    let (body, value) = call_through_service(&service, "/users/foo/about", "/users");
    assert_eq!(body, "{\"username\": \"foo\"}");
    assert_eq!(value.get("username").unwrap().as_str().unwrap(), "foo");
}

#[test]
fn auth_round_trips_api_key() {
    let auth = Auth::new("my-api-key");
    assert_eq!(auth.api_key(), "my-api-key");
}
