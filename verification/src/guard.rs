//! The schema equality guard: the precondition a conditional rewrite rule
//! checks before it is allowed to fire.

use vstd::prelude::*;
use vstd::pervasive::VecAdditionalExecFns;

use crate::node::{Id, Schema};
use crate::store::SchemaStore;

verus! {

/// A pattern placeholder: a symbolic variable of a rewrite rule, bound to
/// a concrete class handle by the substitution a rule match produces.
pub type Var = usize;

/// The bindings one rule match produced, placeholder by placeholder.
///
/// The rule-matching engine owns these; the guard only reads them. A
/// placeholder the match did not bind resolves to nothing, and passing one
/// to the guard is a caller-contract violation, so the guard requires both
/// of its placeholders to be bound.
pub struct Subst {
    bindings: Vec<Option<Id>>,
}

impl View for Subst {
    type V = Seq<Option<Id>>;

    /// The substitution abstractly: position `v` holds the class bound to
    /// placeholder `v`, or nothing if the match left `v` unbound.
    closed spec fn view(&self) -> Seq<Option<Id>> {
        self.bindings.deep_view()
    }
}

/// True when the substitution binds placeholder `v` to some class.
pub open spec fn resolves(sub: Seq<Option<Id>>, v: Var) -> bool {
    (v as int) < sub.len() && sub[v as int] is Some
}

/// The class handle the substitution binds placeholder `v` to.
pub open spec fn resolved(sub: Seq<Option<Id>>, v: Var) -> Id
    recommends
        resolves(sub, v),
{
    sub[v as int].unwrap()
}

/// What the guard decides: whether the recorded schemas of the classes
/// bound to the two placeholders are equal as ordered sequences — same
/// length, same column identifiers, same positions. Equality is
/// structural, never "equivalent up to renaming".
pub open spec fn guard_holds(v1: Var, v2: Var, sub: Seq<Option<Id>>, s: Seq<Seq<Id>>) -> bool
    recommends
        resolves(sub, v1),
        resolves(sub, v2),
{
    s[resolved(sub, v1) as int] == s[resolved(sub, v2) as int]
}

impl Subst {
    /// A substitution binding nothing.
    pub fn new() -> (r: Self)
        ensures
            r@ == Seq::<Option<Id>>::empty(),
    {
        let r = Subst { bindings: Vec::new() };
        proof {
            assert(r@ =~= Seq::<Option<Id>>::empty());
        }
        r
    }

    /// Binds placeholder `v` to class `id`, leaving every other binding as
    /// it was; placeholders between the old end and `v` stay unbound.
    pub fn bind(&mut self, v: Var, id: Id)
        requires
            v < usize::MAX,
        ensures
            final(self)@.len() == if (v as int) < old(self)@.len() {
                old(self)@.len() as int
            } else {
                v as int + 1
            },
            resolves(final(self)@, v),
            resolved(final(self)@, v) == id,
            forall|i: int|
                0 <= i < old(self)@.len() && i != v ==> final(self)@[i] == old(self)@[i],
            forall|i: int|
                old(self)@.len() <= i < final(self)@.len() && i != v
                    ==> final(self)@[i] is None,
    {
        let ghost prev = self@;
        while self.bindings.len() <= v
            invariant
                v < usize::MAX,
                prev.len() <= self@.len(),
                self@.len() > prev.len() ==> self@.len() <= v as int + 1,
                forall|i: int| 0 <= i < prev.len() ==> self@[i] == prev[i],
                forall|i: int| prev.len() <= i < self@.len() ==> self@[i] is None,
            decreases v + 1 - self.bindings.len(),
        {
            let ghost before = self@;
            self.bindings.push(None);
            proof {
                assert(self@ =~= before.push(None));
            }
        }
        let ghost grown = self@;
        self.bindings.set(v, Some(id));
        proof {
            assert(self@ =~= grown.update(v as int, Some(id)));
        }
    }

    /// The class bound to placeholder `v`, which must be bound.
    pub fn lookup(&self, v: Var) -> (id: Id)
        requires
            resolves(self@, v),
        ensures
            id == resolved(self@, v),
    {
        match self.bindings[v] {
            Some(id) => id,
            None => vstd::pervasive::unreached(),
        }
    }
}

/// Element-for-element equality of two schemas: same length, same column
/// identifier at every position.
fn schema_eq(a: &Schema, b: &Schema) -> (r: bool)
    ensures
        r == (a@ == b@),
{
    if a.len() != b.len() {
        return false;
    }
    let mut i: usize = 0;
    while i < a.len()
        invariant
            i <= a.len(),
            a@.len() == b@.len(),
            forall|j: int| 0 <= j < i ==> a@[j] == b@[j],
        decreases a.len() - i,
    {
        if a[i] != b[i] {
            return false;
        }
        i = i + 1;
    }
    proof {
        assert(a@ =~= b@);
    }
    true
}

/// Decides whether the classes the substitution binds to placeholders `v1`
/// and `v2` currently record structurally equal schemas.
///
/// This is the precondition of a conditional rewrite: the host evaluates
/// it once per candidate match, purely as a read of already-computed
/// per-class facts, and lets the rewrite fire only when it returns true.
/// Both placeholders being bound, and the bound classes having recorded
/// facts, are invariants the rule engine owes its guards.
pub fn schema_is_eq(v1: Var, v2: Var, subst: &Subst, store: &SchemaStore) -> (r: bool)
    requires
        resolves(subst@, v1),
        resolves(subst@, v2),
        (resolved(subst@, v1) as int) < store@.len(),
        (resolved(subst@, v2) as int) < store@.len(),
    ensures
        r == guard_holds(v1, v2, subst@, store@),
{
    let c1 = subst.lookup(v1);
    let c2 = subst.lookup(v2);
    schema_eq(store.get(c1), store.get(c2))
}

/// Guard reflexivity law: a placeholder bound to any class always has a
/// schema equal to its own, so the guard holds whenever both sides
/// resolve to the same class — in particular for one placeholder checked
/// against itself.
pub proof fn lemma_guard_reflexive(v: Var, sub: Seq<Option<Id>>, s: Seq<Seq<Id>>)
    requires
        resolves(sub, v),
    ensures
        guard_holds(v, v, sub, s),
{
}

/// Guard order-sensitivity law: two classes whose schemas hold the same
/// column identifiers — equal as multisets — but in different orders are
/// not equal as sequences, so the guard refuses them.
pub proof fn lemma_guard_order_sensitive(v1: Var, v2: Var, sub: Seq<Option<Id>>, s: Seq<Seq<Id>>)
    requires
        resolves(sub, v1),
        resolves(sub, v2),
        s[resolved(sub, v1) as int].to_multiset() == s[resolved(sub, v2) as int].to_multiset(),
        s[resolved(sub, v1) as int] != s[resolved(sub, v2) as int],
    ensures
        !guard_holds(v1, v2, sub, s),
{
}

} // verus!
