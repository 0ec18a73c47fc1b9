//! The client: a validated endpoint plus the model store, exposing the
//! fetch and create-or-update operations. The endpoint must parse as an
//! absolute URL at construction; the operations validate input and read or
//! write the store, and their contracts say exactly which entry changes.

use vstd::prelude::*;

use crate::error::{is_http_error, Error, ErrorKind};
use crate::models::{Model, ModelView};
use crate::store::ModelStore;
use crate::telemetry::SelfDescribing;
use url::Url;

verus! {

#[verifier::external_type_specification]
#[verifier::external_body]
pub struct ExUrl(Url);

#[verifier::external_type_specification]
#[verifier::external_body]
pub struct ExParseError(url::ParseError);

/// Whether url's parser accepts `s` as an absolute URL.
pub uninterp spec fn url_accepts(s: Seq<char>) -> bool;

/// Relies on url::Url::parse: a deterministic function of the input string
/// alone, returning Ok exactly when the string parses as an absolute URL.
#[verifier::external_body]
fn parse_url(s: &str) -> (r: Result<Url, url::ParseError>)
    ensures
        r is Ok <==> url_accepts(s@),
{
    Url::parse(s)
}

/// Relies on Display for url::ParseError: every variant renders as a
/// fixed, non-empty description.
#[verifier::external_body]
fn parse_error_text(e: &url::ParseError) -> (r: String)
    ensures
        r@.len() > 0,
{
    format!("{e}")
}

/// A configured endpoint plus the model store. Operations take the client
/// by reference; a host that shares one client across tasks serializes the
/// mutating operations outside this library.
pub struct ExampleClient {
    endpoint: Url,
    store: ModelStore,
}

impl ExampleClient {
    /// The client's structural invariant: the store's names are present
    /// and unique.
    pub closed spec fn inv(&self) -> bool {
        self.store.wf()
    }

    /// The mapping the client's store currently represents.
    pub closed spec fn models(&self) -> Map<Seq<char>, ModelView> {
        self.store@
    }

    /// The endpoint value the client holds.
    pub closed spec fn spec_endpoint(&self) -> Url {
        self.endpoint
    }

    /// A name found in the store names a model carrying that very name.
    pub proof fn lemma_models_keyed(&self, k: Seq<char>)
        requires
            self.inv(),
            self.models().contains_key(k),
        ensures
            self.models()[k].name == Some(k),
    {
        self.store.lemma_keyed(k);
    }

    /// Constructs a client against `endpoint`, which must parse as an
    /// absolute URL; otherwise the call fails with a Conversion error and
    /// no client exists. The store starts empty.
    pub fn new(endpoint: &str) -> (r: Result<Self, Error>)
        ensures
            url_accepts(endpoint@) ==> (r matches Ok(c) && c.inv() && c.models() == Map::<
                Seq<char>,
                ModelView,
            >::empty()),
            !url_accepts(endpoint@) ==> (r matches Err(e) && e.spec_kind()
                == ErrorKind::Conversion),
    {
        match parse_url(endpoint) {
            Ok(u) => Ok(ExampleClient { endpoint: u, store: ModelStore::new() }),
            Err(e) => {
                let text = parse_error_text(&e);
                Err(Error::new(ErrorKind::Conversion, text))
            },
        }
    }

    /// The endpoint the client was constructed against.
    pub fn endpoint(&self) -> (r: &Url)
        ensures
            *r == self.spec_endpoint(),
    {
        &self.endpoint
    }

    /// Fetches the model stored under `name`; for a name never stored the
    /// call fails like a remote service would, with status 404 and no
    /// message.
    pub fn get_model(&self, name: &str) -> (r: Result<Model, Error>)
        requires
            self.inv(),
        ensures
            self.models().contains_key(name@) ==> (r matches Ok(m) && m@
                == self.models()[name@]),
            !self.models().contains_key(name@) ==> (r matches Err(e) && is_http_error(e, 404)),
    {
        self.store.get(name)
    }

    /// Validates that `model` carries a name — absence fails with status
    /// 400 and mutates nothing — then stores the model whole under that
    /// name, overwriting any previous entry, and returns the stored model.
    pub fn create_or_update_model(&mut self, model: Model) -> (r: Result<Model, Error>)
        requires
            old(self).inv(),
        ensures
            final(self).inv(),
            final(self).spec_endpoint() == old(self).spec_endpoint(),
            model@.name matches Some(k) ==> final(self).models() == old(self).models().insert(
                k,
                model@,
            ) && (r matches Ok(m) && m@ == model@),
            model@.name is None ==> *final(self) == *old(self) && (r matches Err(e)
                && is_http_error(e, 400)),
    {
        self.store.put(model)
    }
}

impl SelfDescribing for ExampleClient {
    /// The stable identity: a logical client-type tag and a namespace tag,
    /// identical for every span minted for operations on this client type.
    open spec fn spec_identity(&self) -> Seq<(Seq<char>, Seq<char>)> {
        seq![("az.client"@, "ExampleClient"@), ("az.namespace"@, "Microsoft.Example"@)]
    }

    fn identity_fields(&self) -> (r: Vec<(String, String)>) {
        let mut v: Vec<(String, String)> = Vec::new();
        v.push((String::from_str("az.client"), String::from_str("ExampleClient")));
        v.push((String::from_str("az.namespace"), String::from_str("Microsoft.Example")));
        v
    }
}

} // verus!
