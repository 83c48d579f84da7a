//! The plan/expression algebra and its well-formedness conditions.

use vstd::prelude::*;

verus! {

/// A handle to an equivalence class in the host engine's class table.
///
/// Children of a plan node are class handles, never owned nodes: many
/// parents may share one child class. A column identifier is such a handle
/// too — a column is identified by the class of the expression that
/// produces it, so column equality is identity of the producing reference.
pub type Id = usize;

/// An ordered sequence of column identifiers: the output shape of a plan
/// operator. Order is load-bearing — downstream consumers bind columns by
/// position — so no rule below deduplicates or re-sorts.
pub type Schema = Vec<Id>;

/// One node of the closed plan/expression algebra.
///
/// Plan operators reference their operands by class handle. Scalar
/// expressions (table and column references, constants, comparisons) are
/// part of the same algebra but produce no schema of their own.
pub enum Expr {
    /// Keeps the rows that satisfy `cond`; passes the child schema through.
    Filter { cond: Id, child: Id },
    /// Sorts by `keys`; passes the child schema through.
    Order { keys: Id, child: Id },
    /// Takes `limit` rows after skipping `offset`; passes the child schema through.
    Limit { limit: Id, offset: Id, child: Id },
    /// Sorted limit; passes the child schema through.
    TopN { limit: Id, offset: Id, keys: Id, child: Id },
    /// Nested-loop join: left schema followed by right schema.
    Join { join_type: Id, cond: Id, left: Id, right: Id },
    /// Hash join: left schema followed by right schema.
    HashJoin { join_type: Id, left_keys: Id, right_keys: Id, left: Id, right: Id },
    /// Merge join: left schema followed by right schema.
    MergeJoin { join_type: Id, left_keys: Id, right_keys: Id, left: Id, right: Id },
    /// An explicit list of expression classes; its elements, verbatim, are a
    /// schema for any parent that designates this node as an operand.
    List(Vec<Id>),
    /// Base-table scan: outputs exactly its `columns` operand's schema.
    Scan { table: Id, columns: Id, filter: Id },
    /// Engine-internal source wrapper: outputs its `columns` operand's schema.
    Internal { table: Id, columns: Id },
    /// A literal row set; its schema is the schema of its first row. That
    /// all rows share one schema is an invariant owed by whoever inserts
    /// the node, not re-checked here.
    Values(Vec<Id>),
    /// Projection: outputs its `exprs` operand's schema.
    Proj { exprs: Id, child: Id },
    /// Simple (ungrouped) aggregation: outputs its `exprs` operand's schema.
    Agg { exprs: Id, child: Id },
    /// Window functions append columns: child schema followed by `exprs` schema.
    Window { exprs: Id, child: Id },
    /// Grouped hash aggregation: `exprs` schema followed by `keys` schema.
    HashAgg { exprs: Id, keys: Id, child: Id },
    /// Grouped sort aggregation: `exprs` schema followed by `keys` schema.
    SortAgg { exprs: Id, keys: Id, child: Id },
    /// Variadic placeholder over independently-schemad branches: the
    /// concatenation, in child order, of every child's schema.
    Empty(Vec<Id>),
    /// A table reference by catalog identifier: a scalar operand, no schema.
    Table(u32),
    /// A base column reference by catalog identifier: no schema of its own.
    Column(u32),
    /// A literal scalar value: no schema.
    Constant(i64),
    /// A comparison over two expression classes: no schema.
    Cmp(Id, Id),
}

/// True of the node kinds that derive a schema from their operands — the
/// plan operators and the two source forms (`List`, `Values`). Every other
/// kind is a scalar expression and analyzes to the empty schema.
pub open spec fn produces_schema(e: Expr) -> bool {
    match e {
        Expr::Table(_) => false,
        Expr::Column(_) => false,
        Expr::Constant(_) => false,
        Expr::Cmp(_, _) => false,
        _ => true,
    }
}

/// Well-formedness of one node against a class table of `n` classes: every
/// operand whose schema the analysis looks up must be a live class, and a
/// `Values` node must have at least one row (the algebra fixes the arity of
/// every other schema-bearing kind, so an empty one cannot be built).
/// Operands that are never looked up — predicates, ordering keys, join
/// conditions, table references — are unconstrained here.
pub open spec fn wf_node(e: Expr, n: int) -> bool {
    match e {
        Expr::Filter { cond: _, child } => (child as int) < n,
        Expr::Order { keys: _, child } => (child as int) < n,
        Expr::Limit { limit: _, offset: _, child } => (child as int) < n,
        Expr::TopN { limit: _, offset: _, keys: _, child } => (child as int) < n,
        Expr::Join { join_type: _, cond: _, left, right } => (left as int) < n && (right as int) < n,
        Expr::HashJoin { join_type: _, left_keys: _, right_keys: _, left, right } => (left as int) < n && (right as int) < n,
        Expr::MergeJoin { join_type: _, left_keys: _, right_keys: _, left, right } => (left as int) < n && (right as int) < n,
        Expr::List(_) => true,
        Expr::Scan { table: _, columns, filter: _ } => (columns as int) < n,
        Expr::Internal { table: _, columns } => (columns as int) < n,
        Expr::Values(rows) => rows@.len() > 0 && (rows@[0] as int) < n,
        Expr::Proj { exprs, child: _ } => (exprs as int) < n,
        Expr::Agg { exprs, child: _ } => (exprs as int) < n,
        Expr::Window { exprs, child } => (exprs as int) < n && (child as int) < n,
        Expr::HashAgg { exprs, keys, child: _ } => (exprs as int) < n && (keys as int) < n,
        Expr::SortAgg { exprs, keys, child: _ } => (exprs as int) < n && (keys as int) < n,
        Expr::Empty(ids) => forall|i: int| 0 <= i < ids@.len() ==> (ids@[i] as int) < n,
        Expr::Table(_) => true,
        Expr::Column(_) => true,
        Expr::Constant(_) => true,
        Expr::Cmp(_, _) => true,
    }
}

} // verus!
