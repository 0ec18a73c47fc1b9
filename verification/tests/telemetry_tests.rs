use tracing_examples::error::{Error, ErrorKind};
use tracing_examples::models::Model;
use tracing_examples::telemetry::{event_for_outcome, resolve_span, SelfDescribing, SpanDecision};
use tracing_examples::ExampleClient;

#[test]
fn resolve_span_mints_without_ambient_identity() {
    assert_eq!(resolve_span(None), SpanDecision::Mint);
}

#[test]
fn resolve_span_reuses_matching_ambient_identity() {
    let ambient = String::from("ExampleClient");
    assert_eq!(resolve_span(Some(&ambient)), SpanDecision::Reuse);
}

#[test]
fn resolve_span_mints_on_foreign_ambient_identity() {
    let ambient = String::from("OtherClient");
    assert_eq!(resolve_span(Some(&ambient)), SpanDecision::Mint);
}

#[test]
fn identity_fields_are_stable() {
    let c = match ExampleClient::new("https://api.example.com") {
        Ok(c) => c,
        Err(_) => panic!("endpoint rejected"),
    };
    let fields = c.identity_fields();
    assert_eq!(fields.len(), 2);
    assert_eq!(fields[0].0, "az.client");
    assert_eq!(fields[0].1, "ExampleClient");
    assert_eq!(fields[1].0, "az.namespace");
    assert_eq!(fields[1].1, "Microsoft.Example");
}

#[test]
fn failed_outcome_owes_exactly_one_error_event() {
    let outcome: Result<Model, Error> =
        Err(Error::from(ErrorKind::http_response(404, None)));
    let ev = match event_for_outcome("get_model", &outcome) {
        Some(ev) => ev,
        None => panic!("expected an event"),
    };
    assert_eq!(ev.operation, "get_model");
    assert_eq!(ev.namespace, "Microsoft.Example");
    assert_eq!(ev.message, "HTTP 404");
}

#[test]
fn successful_outcome_owes_no_error_event() {
    let outcome: Result<Model, Error> = Ok(Model::new("foo", "a"));
    assert!(event_for_outcome("get_model", &outcome).is_none());
}
