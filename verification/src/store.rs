//! The per-class schema facts, keyed by class handle.
//!
//! The host engine owns the equivalence classes; this store models the one
//! analysis fact it keeps per class. Facts are derived bottom-up — a class
//! gets its schema before any parent node referencing it is analyzed — and
//! are appended, never mutated in place: a merge produces a fresh fact for
//! the merged class rather than rewriting an old one.

use vstd::prelude::*;

use crate::node::{Id, Schema};

verus! {

/// The schema facts recorded so far, one per class, indexed by [`Id`].
pub struct SchemaStore {
    schemas: Vec<Schema>,
}

impl View for SchemaStore {
    type V = Seq<Seq<Id>>;

    /// The store abstractly: the sequence of recorded schemas, position `i`
    /// holding the schema of class `i`.
    closed spec fn view(&self) -> Seq<Seq<Id>> {
        self.schemas.deep_view()
    }
}

impl SchemaStore {
    /// An empty class table: no class has a fact yet.
    pub fn new() -> (s: Self)
        ensures
            s@ == Seq::<Seq<Id>>::empty(),
    {
        let s = SchemaStore { schemas: Vec::new() };
        proof {
            assert(s@ =~= Seq::<Seq<Id>>::empty());
        }
        s
    }

    /// How many classes have a recorded fact.
    pub fn len(&self) -> (n: usize)
        ensures
            n == self@.len(),
    {
        self.schemas.len()
    }

    /// Records the fact for the next class and returns its handle. Handles
    /// are dense: the new class's handle is the previous class count.
    pub fn push(&mut self, schema: Schema) -> (id: Id)
        ensures
            final(self)@ == old(self)@.push(schema@),
            id == old(self)@.len(),
    {
        let ghost prev = self@;
        let ghost pushed = schema@;
        let id = self.schemas.len();
        self.schemas.push(schema);
        proof {
            assert(self@ =~~= prev.push(pushed));
        }
        id
    }

    /// The recorded schema of class `id`.
    pub fn get(&self, id: Id) -> (r: &Schema)
        requires
            (id as int) < self@.len(),
        ensures
            r@ == self@[id as int],
    {
        let r = &self.schemas[id];
        proof {
            assert(r@ =~= self@[id as int]);
        }
        r
    }
}

} // verus!
