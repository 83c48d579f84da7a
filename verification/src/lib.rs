//! Schema-propagation analysis for a relational query optimizer built on
//! equality saturation.
//!
//! The optimizer represents many equivalent query plans compactly in an
//! equality graph. Each equivalence class carries one derived fact: its
//! output schema, the ordered sequence of column identifiers that the
//! operators in that class produce. This crate holds the two pure
//! computations over that fact:
//!
//! * [`analysis::analyze_schema`] derives one node's output schema from the
//!   already-known schemas of its child classes;
//! * [`guard::schema_is_eq`] decides, for a conditional rewrite rule,
//!   whether the classes bound to two pattern placeholders have identical
//!   schemas.

pub mod analysis;
pub mod guard;
pub mod node;
pub mod store;
