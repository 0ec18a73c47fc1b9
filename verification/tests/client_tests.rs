use tracing_examples::error::{Error, ErrorKind};
use tracing_examples::models::{Model, Secret};
use tracing_examples::ExampleClient;
use tracing_examples::ExampleClientExt;

fn must_ok(r: Result<Model, Error>) -> Model {
    match r {
        Ok(m) => m,
        Err(e) => panic!("expected success, got {:?}", e),
    }
}

fn must_err(r: Result<Model, Error>) -> Error {
    match r {
        Ok(_) => panic!("expected failure"),
        Err(e) => e,
    }
}

fn client() -> ExampleClient {
    match ExampleClient::new("https://api.example.com") {
        Ok(c) => c,
        Err(e) => panic!("endpoint rejected: {:?}", e),
    }
}

#[test]
fn new_rejects_invalid_endpoint_with_conversion() {
    let r = ExampleClient::new("not a url");
    match r {
        Ok(_) => panic!("expected failure"),
        Err(e) => assert!(matches!(e.kind(), ErrorKind::Conversion)),
    }
}

#[test]
fn invalid_endpoint_error_carries_parser_text() {
    let e = match ExampleClient::new("not a url") {
        Ok(_) => panic!("expected failure"),
        Err(e) => e,
    };
    let expected = match url::Url::parse("not a url") {
        Ok(_) => panic!("url accepted the input"),
        Err(pe) => pe.to_string(),
    };
    assert_eq!(e.message(), expected);
    assert!(!e.message().is_empty());
    assert_eq!(e.cause().map(|c| c.as_str()), Some(expected.as_str()));
}

#[test]
fn endpoint_is_kept() {
    let c = client();
    assert_eq!(c.endpoint().as_str(), "https://api.example.com/");
}

#[test]
fn get_model_missing_fails_404() {
    let c = client();
    let e = must_err(c.get_model("nope"));
    assert!(matches!(e.kind(), ErrorKind::Http { code: 404, message: None }));
}

#[test]
fn create_then_get_round_trip() {
    let mut c = client();
    let stored = must_ok(c.create_or_update_model(Model::new("foo", "a")));
    assert_eq!(stored.name.as_deref(), Some("foo"));
    let got = must_ok(c.get_model("foo"));
    assert_eq!(got.name.as_deref(), Some("foo"));
    assert_eq!(got.secret.as_ref().map(|s| s.value()), Some("a"));
    assert_eq!(got.version, Some(1));
}

#[test]
fn create_without_name_fails_400_and_mutates_nothing() {
    let mut c = client();
    must_ok(c.create_or_update_model(Model::new("foo", "a")));
    let nameless = Model {
        name: None,
        secret: Some(Secret::from(String::from("x"))),
        version: Some(7),
    };
    let e = must_err(c.create_or_update_model(nameless));
    assert!(matches!(e.kind(), ErrorKind::Http { code: 400, message: None }));
    let got = must_ok(c.get_model("foo"));
    assert_eq!(got.version, Some(1));
    assert_eq!(got.secret.as_ref().map(|s| s.value()), Some("a"));
}

#[test]
fn update_overwrites_whole_entry() {
    let mut c = client();
    must_ok(c.create_or_update_model(Model::new("foo", "a")));
    let replacement = Model {
        name: Some(String::from("foo")),
        secret: Some(Secret::from(String::from("b"))),
        version: Some(9),
    };
    must_ok(c.create_or_update_model(replacement));
    let got = must_ok(c.get_model("foo"));
    assert_eq!(got.secret.as_ref().map(|s| s.value()), Some("b"));
    assert_eq!(got.version, Some(9));
}

#[test]
fn last_write_wins_whole() {
    let mut c = client();
    must_ok(c.create_or_update_model(Model::new("foo", "a")));
    let first = Model {
        name: Some(String::from("foo")),
        secret: Some(Secret::from(String::from("one"))),
        version: Some(5),
    };
    let second = Model {
        name: Some(String::from("foo")),
        secret: Some(Secret::from(String::from("two"))),
        version: Some(6),
    };
    must_ok(c.create_or_update_model(first));
    must_ok(c.create_or_update_model(second));
    let got = must_ok(c.get_model("foo"));
    assert_eq!(got.secret.as_ref().map(|s| s.value()), Some("two"));
    assert_eq!(got.version, Some(6));
}

#[test]
fn rotate_increments_version_and_replaces_secret() {
    let mut c = client();
    must_ok(c.create_or_update_model(Model::new("foo", "a")));
    let rotated = must_ok(c.rotate("foo", Secret::from(String::from("z"))));
    assert_eq!(rotated.name.as_deref(), Some("foo"));
    assert_eq!(rotated.secret.as_ref().map(|s| s.value()), Some("z"));
    assert_eq!(rotated.version, Some(2));
}

#[test]
fn rotate_twice_adds_two() {
    let mut c = client();
    must_ok(c.create_or_update_model(Model::new("foo", "a")));
    must_ok(c.rotate("foo", Secret::from(String::from("y"))));
    let again = must_ok(c.rotate("foo", Secret::from(String::from("z"))));
    assert_eq!(again.version, Some(3));
    assert_eq!(again.secret.as_ref().map(|s| s.value()), Some("z"));
}

#[test]
fn rotate_missing_fails_404_and_mutates_nothing() {
    let mut c = client();
    must_ok(c.create_or_update_model(Model::new("foo", "a")));
    let e = must_err(c.rotate("missing", Secret::from(String::from("x"))));
    assert!(matches!(e.kind(), ErrorKind::Http { code: 404, message: None }));
    let got = must_ok(c.get_model("foo"));
    assert_eq!(got.version, Some(1));
}

#[test]
fn scenario_three_models_and_a_rotation() {
    let mut c = match ExampleClient::new("https://api.example.com") {
        Ok(c) => c,
        Err(e) => panic!("endpoint rejected: {:?}", e),
    };
    must_ok(c.create_or_update_model(Model::new("foo", "a")));
    must_ok(c.create_or_update_model(Model::new("bar", "b")));
    must_ok(c.create_or_update_model(Model::new("baz", "c")));
    for (name, secret) in [("foo", "a"), ("bar", "b"), ("baz", "c")] {
        let got = must_ok(c.get_model(name));
        assert_eq!(got.name.as_deref(), Some(name));
        assert_eq!(got.secret.as_ref().map(|s| s.value()), Some(secret));
        assert_eq!(got.version, Some(1));
    }
    let rotated = must_ok(c.rotate("foo", Secret::from(String::from("z"))));
    assert_eq!(rotated.name.as_deref(), Some("foo"));
    assert_eq!(rotated.secret.as_ref().map(|s| s.value()), Some("z"));
    assert_eq!(rotated.version, Some(2));

    let e = must_err(c.rotate("missing", Secret::from(String::from("x"))));
    assert!(matches!(e.kind(), ErrorKind::Http { code: 404, message: None }));
    let foo = must_ok(c.get_model("foo"));
    assert_eq!(foo.version, Some(2));
    let bar = must_ok(c.get_model("bar"));
    assert_eq!(bar.version, Some(1));
    let baz = must_ok(c.get_model("baz"));
    assert_eq!(baz.version, Some(1));
}
