//! The model store: a mapping from model name to [`Model`], abstracted as a
//! [`Map`] from the name's characters to the model's content. `get` fails
//! like a remote 404 for an absent name; `put` validates that the name is
//! present (else a 400) and then inserts or overwrites the whole entry, so
//! no reader can observe a partially written model.

use vstd::prelude::*;

use crate::error::{is_http_error, Error, ErrorKind};
use crate::models::{Model, ModelView};

verus! {

/// The key under which a model is stored: the characters of its name.
pub open spec fn model_key(m: Model) -> Seq<char> {
    match m.name {
        Some(n) => n@,
        None => Seq::empty(),
    }
}

/// Every stored model has a present name.
pub open spec fn entry_names_ok(s: Seq<Model>) -> bool {
    forall|i: int| 0 <= i < s.len() ==> (#[trigger] s[i]).name is Some
}

/// No two stored models share a name.
pub open spec fn entry_names_distinct(s: Seq<Model>) -> bool {
    forall|i: int, j: int|
        #![trigger s[i], s[j]]
        0 <= i < j < s.len() ==> model_key(s[i]) != model_key(s[j])
}

/// The mapping that a sequence of stored models represents.
pub open spec fn map_of(s: Seq<Model>) -> Map<Seq<char>, ModelView>
    decreases s.len(),
{
    if s.len() == 0 {
        Map::empty()
    } else {
        map_of(s.drop_last()).insert(model_key(s.last()), s.last()@)
    }
}

proof fn lemma_drop_last_distinct(s: Seq<Model>)
    requires
        entry_names_distinct(s),
        s.len() > 0,
    ensures
        entry_names_distinct(s.drop_last()),
        entry_names_ok(s) ==> entry_names_ok(s.drop_last()),
{
    let t = s.drop_last();
    assert forall|i: int, j: int|
        #![trigger t[i], t[j]]
        0 <= i < j < t.len() implies model_key(t[i]) != model_key(t[j]) by {
        assert(t[i] == s[i]);
        assert(t[j] == s[j]);
    }
    if entry_names_ok(s) {
        assert forall|i: int| 0 <= i < t.len() implies (#[trigger] t[i]).name is Some by {
            assert(t[i] == s[i]);
        }
    }
}

/// A model stored at position `i` is found in the mapping under its name.
proof fn lemma_map_of_index(s: Seq<Model>, i: int)
    requires
        entry_names_distinct(s),
        0 <= i < s.len(),
    ensures
        map_of(s).contains_key(model_key(s[i])),
        map_of(s)[model_key(s[i])] == s[i]@,
    decreases s.len(),
{
    if i == s.len() - 1 {
        assert(s.last() == s[i]);
    } else {
        let t = s.drop_last();
        lemma_drop_last_distinct(s);
        assert(t[i] == s[i]);
        lemma_map_of_index(t, i);
        assert(model_key(s[s.len() - 1]) != model_key(s[i]));
    }
}

/// A name under which no model is stored is absent from the mapping.
proof fn lemma_map_of_absent(s: Seq<Model>, k: Seq<char>)
    requires
        forall|i: int| 0 <= i < s.len() ==> model_key(#[trigger] s[i]) != k,
    ensures
        !map_of(s).contains_key(k),
    decreases s.len(),
{
    if s.len() > 0 {
        let t = s.drop_last();
        assert forall|i: int| 0 <= i < t.len() implies model_key(#[trigger] t[i]) != k by {
            assert(t[i] == s[i]);
        }
        lemma_map_of_absent(t, k);
        assert(model_key(s.last()) != k);
    }
}

/// Overwriting the model at position `i` with one of the same name changes
/// the mapping by exactly that one entry.
proof fn lemma_map_of_update(s: Seq<Model>, i: int, m: Model)
    requires
        entry_names_distinct(s),
        0 <= i < s.len(),
        model_key(m) == model_key(s[i]),
    ensures
        map_of(s.update(i, m)) == map_of(s).insert(model_key(m), m@),
    decreases s.len(),
{
    let t = s.update(i, m);
    let k = model_key(m);
    if i == s.len() - 1 {
        assert(t.drop_last() =~= s.drop_last());
        assert(t.last() == m);
        assert(map_of(t) == map_of(s.drop_last()).insert(k, m@));
        assert(map_of(s).insert(k, m@) =~= map_of(s.drop_last()).insert(k, m@));
    } else {
        assert(t.drop_last() =~= s.drop_last().update(i, m));
        assert(t.last() == s.last());
        lemma_drop_last_distinct(s);
        assert(s.drop_last()[i] == s[i]);
        lemma_map_of_update(s.drop_last(), i, m);
        let lk = model_key(s.last());
        assert(lk != k);
        assert(map_of(t) == map_of(s.drop_last()).insert(k, m@).insert(lk, s.last()@));
        assert(map_of(s).insert(k, m@) == map_of(s.drop_last()).insert(lk, s.last()@).insert(
            k,
            m@,
        ));
        assert(map_of(s.drop_last()).insert(k, m@).insert(lk, s.last()@) =~= map_of(
            s.drop_last(),
        ).insert(lk, s.last()@).insert(k, m@));
    }
}

/// Appending a model adds exactly its entry to the mapping.
proof fn lemma_map_of_push(s: Seq<Model>, m: Model)
    ensures
        map_of(s.push(m)) == map_of(s).insert(model_key(m), m@),
{
    assert(s.push(m).drop_last() =~= s);
    assert(s.push(m).last() == m);
}

/// Under the store's mapping, every entry's name reads back as its key.
proof fn lemma_map_of_keyed(s: Seq<Model>, k: Seq<char>)
    requires
        entry_names_ok(s),
        map_of(s).contains_key(k),
    ensures
        map_of(s)[k].name == Some(k),
    decreases s.len(),
{
    if s.len() > 0 {
        let t = s.drop_last();
        assert(s.last() == s[s.len() - 1]);
        assert forall|i: int| 0 <= i < t.len() implies (#[trigger] t[i]).name is Some by {
            assert(t[i] == s[i]);
        }
        if model_key(s.last()) == k {
            assert(s.last()@.name == Some(k));
        } else {
            lemma_map_of_keyed(t, k);
        }
    }
}

/// The in-memory mapping from model name to model. Access is serialized by
/// the caller that owns the store; each operation reads or writes the
/// mapping in one step.
pub struct ModelStore {
    entries: Vec<Model>,
}

impl View for ModelStore {
    type V = Map<Seq<char>, ModelView>;

    closed spec fn view(&self) -> Map<Seq<char>, ModelView> {
        map_of(self.entries@)
    }
}

impl ModelStore {
    /// The store's structural invariant: names present and unique.
    pub closed spec fn wf(&self) -> bool {
        entry_names_ok(self.entries@) && entry_names_distinct(self.entries@)
    }

    /// A name found in the store names a model that carries that very name.
    pub proof fn lemma_keyed(&self, k: Seq<char>)
        requires
            self.wf(),
            self@.contains_key(k),
        ensures
            self@[k].name == Some(k),
    {
        lemma_map_of_keyed(self.entries@, k);
    }

    /// An empty store.
    pub fn new() -> (r: ModelStore)
        ensures
            r.wf(),
            r@ == Map::<Seq<char>, ModelView>::empty(),
    {
        ModelStore { entries: Vec::new() }
    }

    /// Looks up `name`; fails like a remote 404 when it is absent.
    pub fn get(&self, name: &str) -> (r: Result<Model, Error>)
        requires
            self.wf(),
        ensures
            self@.contains_key(name@) ==> (r matches Ok(m) && m@ == self@[name@]),
            !self@.contains_key(name@) ==> (r matches Err(e) && is_http_error(e, 404)),
    {
        let key: String = name.to_owned();
        let mut i: usize = 0;
        while i < self.entries.len()
            invariant
                self.wf(),
                key@ == name@,
                i <= self.entries.len(),
                forall|j: int| 0 <= j < i ==> model_key(#[trigger] self.entries@[j]) != name@,
            decreases self.entries.len() - i,
        {
            let found = match &self.entries[i].name {
                Some(n) => *n == key,
                None => false,
            };
            if found {
                proof {
                    lemma_map_of_index(self.entries@, i as int);
                }
                return Ok(self.entries[i].clone());
            }
            i += 1;
        }
        proof {
            lemma_map_of_absent(self.entries@, name@);
        }
        let kind = ErrorKind::http_response(404, None);
        proof {
            crate::error::lemma_error_from_kind(kind);
        }
        Err(Error::from(kind))
    }

    /// Validates that `model` has a present name (else a 400 and no
    /// mutation), then stores it whole under that name, overwriting any
    /// previous entry, and returns the stored model.
    pub fn put(&mut self, model: Model) -> (r: Result<Model, Error>)
        requires
            old(self).wf(),
        ensures
            final(self).wf(),
            model@.name matches Some(k) ==> final(self)@ == old(self)@.insert(k, model@) && (
            r matches Ok(m) && m@ == model@),
            model@.name is None ==> *final(self) == *old(self) && (r matches Err(e)
                && is_http_error(e, 400)),
    {
        let key: String = match &model.name {
            Some(n) => n.clone(),
            None => {
                let kind = ErrorKind::http_response(400, None);
                proof {
                    crate::error::lemma_error_from_kind(kind);
                }
                return Err(Error::from(kind));
            },
        };
        let ghost s0 = old(self).entries@;
        let mut i: usize = 0;
        while i < self.entries.len()
            invariant
                self.wf(),
                self.entries@ == s0,
                old(self).entries@ == s0,
                key@ == model@.name.unwrap(),
                model.name is Some,
                i <= self.entries.len(),
                forall|j: int| 0 <= j < i ==> model_key(#[trigger] self.entries@[j]) != key@,
            decreases self.entries.len() - i,
        {
            let found = match &self.entries[i].name {
                Some(n) => *n == key,
                None => false,
            };
            if found {
                let stored = model.clone();
                proof {
                    assert(stored.name is Some && stored@.name == model@.name);
                    assert(model_key(stored) == key@);
                    lemma_map_of_update(s0, i as int, stored);
                    let t = s0.update(i as int, stored);
                    assert forall|a: int| 0 <= a < t.len() implies (#[trigger] t[a]).name
                        is Some by {
                        if a != i {
                            assert(t[a] == s0[a]);
                        }
                    }
                    assert forall|a: int, b: int|
                        #![trigger t[a], t[b]]
                        0 <= a < b < t.len() implies model_key(t[a]) != model_key(t[b]) by {
                        if a != i {
                            assert(t[a] == s0[a]);
                        }
                        if b != i {
                            assert(t[b] == s0[b]);
                        }
                        assert(model_key(s0[i as int]) == key@);
                    }
                }
                self.entries.set(i, stored);
                return Ok(model);
            }
            i += 1;
        }
        let stored = model.clone();
        proof {
            assert(stored.name is Some && stored@.name == model@.name);
            assert(model_key(stored) == key@);
            lemma_map_of_push(s0, stored);
            let t = s0.push(stored);
            lemma_map_of_absent(s0, key@);
            assert forall|a: int| 0 <= a < t.len() implies (#[trigger] t[a]).name is Some by {
                if a < s0.len() {
                    assert(t[a] == s0[a]);
                }
            }
            assert forall|a: int, b: int|
                #![trigger t[a], t[b]]
                0 <= a < b < t.len() implies model_key(t[a]) != model_key(t[b]) by {
                assert(t[a] == s0[a]);
                if b < s0.len() {
                    assert(t[b] == s0[b]);
                } else {
                    assert(t[b] == stored);
                }
            }
        }
        self.entries.push(stored);
        Ok(model)
    }
}

/// Storing a model and then looking its name up yields exactly the model
/// that was stored: the round trip through the mapping is lossless.
pub proof fn lemma_store_round_trip(
    m: Map<Seq<char>, ModelView>,
    name: Seq<char>,
    v: ModelView,
)
    ensures
        m.insert(name, v).contains_key(name),
        m.insert(name, v)[name] == v,
{
}

/// Two complete writes to the same name, serialized in either order, leave
/// the entry equal to the later one whole — one of the attempted values,
/// never a blend of the two.
pub proof fn lemma_writes_linearize(
    m: Map<Seq<char>, ModelView>,
    name: Seq<char>,
    v1: ModelView,
    v2: ModelView,
)
    ensures
        m.insert(name, v1).insert(name, v2) == m.insert(name, v2),
        m.insert(name, v1).insert(name, v2)[name] == v2,
{
    assert(m.insert(name, v1).insert(name, v2) =~= m.insert(name, v2));
}

} // verus!
