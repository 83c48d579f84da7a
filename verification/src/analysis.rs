//! The schema analysis rule: one node's output schema from the schemas of
//! its child classes.

use vstd::prelude::*;

use crate::node::{Expr, Id, Schema};
use crate::node::{produces_schema, wf_node};
use crate::store::SchemaStore;

verus! {

/// The concatenation, in order, of the recorded schemas of the classes in
/// `ids` — the shape of a variadic collector node over those branches.
pub open spec fn concat_schemas(ids: Seq<Id>, s: Seq<Seq<Id>>) -> Seq<Id>
    decreases ids.len(),
{
    if ids.len() == 0 {
        Seq::empty()
    } else {
        concat_schemas(ids.drop_last(), s) + s[ids.last() as int]
    }
}

/// The output schema of node `e` when `s` records, per class handle, the
/// already-derived schema of that class. This is the dispatch table of the
/// analysis, exhaustive over the closed algebra:
///
/// * pass-through operators expose their plan child's schema unchanged;
/// * the join family concatenates left then right, without deduplication;
/// * a `List` is itself a schema, its elements taken verbatim;
/// * `Scan` and `Internal` expose their designated `columns` operand;
/// * `Values` exposes its first row's schema;
/// * `Proj` and `Agg` expose their output-expressions operand;
/// * `Window` appends its output expressions after the child's columns;
/// * grouped aggregates append the group keys after the aggregate
///   expressions;
/// * `Empty` concatenates every child's schema in child order;
/// * scalar expressions contribute nothing.
pub open spec fn schema_of(e: Expr, s: Seq<Seq<Id>>) -> Seq<Id> {
    match e {
        Expr::Filter { cond: _, child } => s[child as int],
        Expr::Order { keys: _, child } => s[child as int],
        Expr::Limit { limit: _, offset: _, child } => s[child as int],
        Expr::TopN { limit: _, offset: _, keys: _, child } => s[child as int],
        Expr::Join { join_type: _, cond: _, left, right } => s[left as int] + s[right as int],
        Expr::HashJoin { join_type: _, left_keys: _, right_keys: _, left, right } => s[left as int] + s[right as int],
        Expr::MergeJoin { join_type: _, left_keys: _, right_keys: _, left, right } => s[left as int] + s[right as int],
        Expr::List(ids) => ids@,
        Expr::Scan { table: _, columns, filter: _ } => s[columns as int],
        Expr::Internal { table: _, columns } => s[columns as int],
        Expr::Values(rows) => s[rows@[0] as int],
        Expr::Proj { exprs, child: _ } => s[exprs as int],
        Expr::Agg { exprs, child: _ } => s[exprs as int],
        Expr::Window { exprs, child } => s[child as int] + s[exprs as int],
        Expr::HashAgg { exprs, keys, child: _ } => s[exprs as int] + s[keys as int],
        Expr::SortAgg { exprs, keys, child: _ } => s[exprs as int] + s[keys as int],
        Expr::Empty(ids) => concat_schemas(ids@, s),
        Expr::Table(_) => Seq::empty(),
        Expr::Column(_) => Seq::empty(),
        Expr::Constant(_) => Seq::empty(),
        Expr::Cmp(_, _) => Seq::empty(),
    }
}

/// A fresh copy of a recorded schema, element for element.
fn copy_schema(src: &Schema) -> (r: Schema)
    ensures
        r@ == src@,
{
    let mut r: Schema = Vec::new();
    let mut i: usize = 0;
    while i < src.len()
        invariant
            i <= src.len(),
            r@ == src@.take(i as int),
        decreases src.len() - i,
    {
        r.push(src[i]);
        proof {
            assert(r@ =~= src@.take(i as int + 1));
        }
        i = i + 1;
    }
    proof {
        assert(r@ =~= src@);
    }
    r
}

/// `a` followed by `b`, in that order, with no deduplication.
fn concat_schema(a: &Schema, b: &Schema) -> (r: Schema)
    ensures
        r@ == a@ + b@,
{
    let mut r = copy_schema(a);
    let mut i: usize = 0;
    while i < b.len()
        invariant
            i <= b.len(),
            r@ == a@ + b@.take(i as int),
        decreases b.len() - i,
    {
        r.push(b[i]);
        proof {
            assert(r@ =~= a@ + b@.take(i as int + 1));
        }
        i = i + 1;
    }
    proof {
        assert(r@ =~= a@ + b@);
    }
    r
}

/// Derives the output schema of `enode` from the facts in `store`.
///
/// The host's analysis machinery guarantees, by evaluation order, that
/// every class an operand designates already has its fact recorded before
/// the parent node is analyzed — that is the well-formedness precondition,
/// not something this rule discovers. The result is exactly
/// [`schema_of`]: the function is pure and reads only the operands the
/// dispatch table designates, one lookup deep.
pub fn analyze_schema(enode: &Expr, store: &SchemaStore) -> (r: Schema)
    requires
        wf_node(*enode, store@.len() as int),
    ensures
        r@ == schema_of(*enode, store@),
{
    match enode {
        Expr::Filter { cond: _, child } => copy_schema(store.get(*child)),
        Expr::Order { keys: _, child } => copy_schema(store.get(*child)),
        Expr::Limit { limit: _, offset: _, child } => copy_schema(store.get(*child)),
        Expr::TopN { limit: _, offset: _, keys: _, child } => copy_schema(store.get(*child)),
        Expr::Join { join_type: _, cond: _, left, right } => {
            concat_schema(store.get(*left), store.get(*right))
        },
        Expr::HashJoin { join_type: _, left_keys: _, right_keys: _, left, right } => {
            concat_schema(store.get(*left), store.get(*right))
        },
        Expr::MergeJoin { join_type: _, left_keys: _, right_keys: _, left, right } => {
            concat_schema(store.get(*left), store.get(*right))
        },
        Expr::List(ids) => copy_schema(ids),
        Expr::Scan { table: _, columns, filter: _ } => copy_schema(store.get(*columns)),
        Expr::Internal { table: _, columns } => copy_schema(store.get(*columns)),
        Expr::Values(rows) => copy_schema(store.get(rows[0])),
        Expr::Proj { exprs, child: _ } => copy_schema(store.get(*exprs)),
        Expr::Agg { exprs, child: _ } => copy_schema(store.get(*exprs)),
        Expr::Window { exprs, child } => concat_schema(store.get(*child), store.get(*exprs)),
        Expr::HashAgg { exprs, keys, child: _ } => concat_schema(store.get(*exprs), store.get(*keys)),
        Expr::SortAgg { exprs, keys, child: _ } => concat_schema(store.get(*exprs), store.get(*keys)),
        Expr::Empty(ids) => {
            let ghost s = store@;
            let mut r: Schema = Vec::new();
            let mut i: usize = 0;
            while i < ids.len()
                invariant
                    i <= ids.len(),
                    store@ == s,
                    forall|j: int| 0 <= j < ids@.len() ==> (ids@[j] as int) < s.len(),
                    r@ == concat_schemas(ids@.take(i as int), s),
                decreases ids.len() - i,
            {
                let branch = store.get(ids[i]);
                let mut k: usize = 0;
                while k < branch.len()
                    invariant
                        k <= branch.len(),
                        branch@ == s[ids@[i as int] as int],
                        i < ids@.len(),
                        r@ == concat_schemas(ids@.take(i as int), s) + branch@.take(k as int),
                    decreases branch.len() - k,
                {
                    r.push(branch[k]);
                    proof {
                        assert(r@ =~= concat_schemas(ids@.take(i as int), s)
                            + branch@.take(k as int + 1));
                    }
                    k = k + 1;
                }
                proof {
                    assert(ids@.take(i as int + 1).drop_last() =~= ids@.take(i as int));
                    assert(r@ =~= concat_schemas(ids@.take(i as int + 1), s));
                }
                i = i + 1;
            }
            proof {
                assert(ids@.take(ids@.len() as int) =~= ids@);
            }
            r
        },
        Expr::Table(_) => Vec::new(),
        Expr::Column(_) => Vec::new(),
        Expr::Constant(_) => Vec::new(),
        Expr::Cmp(_, _) => Vec::new(),
    }
}

/// Pass-through law: a Filter, Order-by, Limit or Top-N node outputs
/// exactly the recorded schema of its plan child; the predicate, key or
/// bound operands play no part.
pub proof fn lemma_pass_through(cond: Id, keys: Id, limit: Id, offset: Id, child: Id, s: Seq<Seq<Id>>)
    requires
        (child as int) < s.len(),
    ensures
        schema_of(Expr::Filter { cond, child }, s) == s[child as int],
        schema_of(Expr::Order { keys, child }, s) == s[child as int],
        schema_of(Expr::Limit { limit, offset, child }, s) == s[child as int],
        schema_of(Expr::TopN { limit, offset, keys, child }, s) == s[child as int],
{
}

/// Concatenation-order law: every join-family node over (left, right)
/// outputs the left schema followed by the right schema — never the
/// reverse, and with no deduplication.
pub proof fn lemma_join_concat(join_type: Id, cond: Id, left_keys: Id, right_keys: Id, left: Id, right: Id, s: Seq<Seq<Id>>)
    requires
        (left as int) < s.len(),
        (right as int) < s.len(),
    ensures
        schema_of(Expr::Join { join_type, cond, left, right }, s)
            == s[left as int] + s[right as int],
        schema_of(Expr::HashJoin { join_type, left_keys, right_keys, left, right }, s)
            == s[left as int] + s[right as int],
        schema_of(Expr::MergeJoin { join_type, left_keys, right_keys, left, right }, s)
            == s[left as int] + s[right as int],
{
}

/// Window-append law: a Window node keeps every input column and appends
/// its output expressions after them — child schema first, then the
/// window expressions.
pub proof fn lemma_window_append(exprs: Id, child: Id, s: Seq<Seq<Id>>)
    requires
        (exprs as int) < s.len(),
        (child as int) < s.len(),
    ensures
        schema_of(Expr::Window { exprs, child }, s) == s[child as int] + s[exprs as int],
{
}

/// Grouped-aggregate order law: a hash or sort aggregate outputs its
/// aggregate expressions first and appends the group keys after them —
/// not keys first, and not interleaved.
pub proof fn lemma_grouped_agg_order(exprs: Id, keys: Id, child: Id, s: Seq<Seq<Id>>)
    requires
        (exprs as int) < s.len(),
        (keys as int) < s.len(),
    ensures
        schema_of(Expr::HashAgg { exprs, keys, child }, s) == s[exprs as int] + s[keys as int],
        schema_of(Expr::SortAgg { exprs, keys, child }, s) == s[exprs as int] + s[keys as int],
{
}

/// Default-emptiness law: a node kind outside the schema-bearing groups —
/// any scalar expression, constant or identifier — analyzes to the empty
/// schema, whatever the class table holds.
pub proof fn lemma_default_empty(e: Expr, s: Seq<Seq<Id>>)
    requires
        !produces_schema(e),
    ensures
        schema_of(e, s) == Seq::<Id>::empty(),
{
}

} // verus!
