//! A client library for a named, secret-bearing resource store: model CRUD
//! over an in-memory store, a categorized error taxonomy, and the pure
//! decision logic behind span-based instrumentation (reuse an ambient span
//! or mint a new one; one error record per failed call).

use vstd::prelude::*;

pub mod clients;
pub mod error;
pub mod models;
pub mod store;
pub mod telemetry;

pub use clients::ExampleClient;

use crate::error::{is_http_error, Error};
use crate::models::{rotated, version_or_zero, Model, ModelView, Secret};

verus! {

/// Marks the types allowed to carry the rotation extension; only the
/// client implements it.
pub trait Sealed {

}

/// The rotation workflow over a client: fetch the model by name, replace
/// its secret and increment its version, then persist it back.
pub trait ExampleClientExt: Sealed {
    /// The implementing client's structural invariant.
    spec fn wf(&self) -> bool;

    /// The mapping the implementing client's store represents.
    spec fn stored(&self) -> Map<Seq<char>, ModelView>;

    /// Rotates the secret of the model stored under `name`: the stored
    /// model's secret is replaced by `secret`, its version incremented by
    /// exactly one, and its name kept. A name never stored fails with
    /// status 404, unchanged from the fetch, and mutates nothing.
    fn rotate(&mut self, name: &str, secret: Secret) -> (r: Result<Model, Error>)
        requires
            old(self).wf(),
            old(self).stored().contains_key(name@) ==> version_or_zero(
                old(self).stored()[name@].version,
            ) < u32::MAX,
        ensures
            final(self).wf(),
            old(self).stored().contains_key(name@) ==> final(self).stored() == old(
                self,
            ).stored().insert(name@, rotated(old(self).stored()[name@], secret@)) && (
            r matches Ok(m) && m@ == rotated(old(self).stored()[name@], secret@)),
            !old(self).stored().contains_key(name@) ==> final(self).stored() == old(
                self,
            ).stored() && (r matches Err(e) && is_http_error(e, 404)),
    ;
}

impl Sealed for ExampleClient {

}

impl ExampleClientExt for ExampleClient {
    open spec fn wf(&self) -> bool {
        self.inv()
    }

    open spec fn stored(&self) -> Map<Seq<char>, ModelView> {
        self.models()
    }

    fn rotate(&mut self, name: &str, secret: Secret) -> (r: Result<Model, Error>) {
        let fetched = self.get_model(name);
        match fetched {
            Err(e) => Err(e),
            Ok(mut m) => {
                proof {
                    self.lemma_models_keyed(name@);
                }
                m.rotate(secret);
                self.create_or_update_model(m)
            },
        }
    }
}

} // verus!
