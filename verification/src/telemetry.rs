//! The decision logic behind span-based instrumentation. Per call, an
//! operation either nests inside the caller's ambient span or mints a new
//! one tagged with the component's identity fields, so that at most one
//! span exists per logical operation per call chain; and a failed call owes
//! exactly one error record, emitted at the point of detection. The
//! ambient trace collector that receives spans and records is outside this
//! library; callers execute these decisions against it.

use vstd::prelude::*;

use crate::error::Error;

verus! {

/// What the resolver decided for one call: nest inside the caller's span
/// unchanged, or mint a new span tagged with the identity fields.
#[derive(Debug, PartialEq, Eq)]
pub enum SpanDecision {
    Reuse,
    Mint,
}

/// The characters of the ambient identity-field value, when one is present.
pub open spec fn ambient_view(ambient: Option<&String>) -> Option<Seq<char>> {
    match ambient {
        Some(s) => Some(s@),
        None => None,
    }
}

/// Whether the ambient context already belongs to this client type: it
/// carries the client identity field with the expected value.
pub open spec fn ambient_matches(ambient: Option<Seq<char>>) -> bool {
    ambient == Some("ExampleClient"@)
}

/// Decides, at the top of an instrumented operation, between reusing the
/// caller's span and minting a new one. `ambient_client` is the value of
/// the client identity field in the ambient context, if that field is
/// present. The span is reused exactly when the ambient context already
/// carries this client's identity, so a higher-level operation that opened
/// a span suppresses duplicate span creation by its callees.
pub fn resolve_span(ambient_client: Option<&String>) -> (d: SpanDecision)
    ensures
        d is Reuse <==> ambient_matches(ambient_view(ambient_client)),
        d is Mint <==> !ambient_matches(ambient_view(ambient_client)),
{
    match ambient_client {
        Some(v) => {
            let expected = String::from_str("ExampleClient");
            if *v == expected {
                SpanDecision::Reuse
            } else {
                SpanDecision::Mint
            }
        },
        None => SpanDecision::Mint,
    }
}

/// A fixed, reusable participant in tracing can describe itself as an
/// ordered list of named fields, defined once per component type; a span
/// minted for any of its operations carries exactly these fields.
pub trait SelfDescribing {
    /// The mathematical content of the fields: ordered (name, value) pairs.
    spec fn spec_identity(&self) -> Seq<(Seq<char>, Seq<char>)>;

    /// The named fields to attach to any span this component participates
    /// in.
    fn identity_fields(&self) -> (r: Vec<(String, String)>)
        ensures
            r@.len() == self.spec_identity().len(),
            forall|i: int|
                0 <= i < r@.len() ==> (#[trigger] r@[i]).0@ == self.spec_identity()[i].0
                    && r@[i].1@ == self.spec_identity()[i].1,
    ;
}

/// The one error record a failed operation owes: attributed to the
/// operation's identity (name and namespace) and carrying the failure's
/// display text.
pub struct ErrorEvent {
    pub operation: String,
    pub namespace: String,
    pub message: String,
}

/// The error record owed for an outcome: exactly one for a failure, none
/// for a success. An error is thus recorded once, at the span that
/// detected it, and never re-recorded by callers up the stack.
pub fn event_for_outcome<T>(operation: &str, outcome: &Result<T, Error>) -> (r: Option<
    ErrorEvent,
>)
    ensures
        outcome matches Err(e) ==> (r matches Some(ev) && ev.operation@ == operation@
            && ev.namespace@ == "Microsoft.Example"@ && ev.message@ == e.spec_message()),
        outcome is Ok ==> r is None,
{
    match outcome {
        Err(e) => Some(
            ErrorEvent {
                operation: operation.to_owned(),
                namespace: String::from_str("Microsoft.Example"),
                message: e.message(),
            },
        ),
        Ok(_) => None,
    }
}

} // verus!
