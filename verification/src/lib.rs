//! A fluent, in-memory builder for SQL-like query descriptions.
//!
//! The library assembles a tree of typed value expressions ([`Statement`])
//! into a query representation ([`Query`]): a table descriptor, a list of
//! selected columns, and a list of filter constraints. It never parses or
//! executes SQL; a renderer reads the finished tree through its public
//! fields.
//!
//! Filter conditions are built through constraint chains: a start call
//! consumes the query and returns an [`OpenConstraint`] that owns it
//! exclusively; a terminal comparison call closes the node, appends it to
//! the query's constraint list, and returns the query. Ownership moves
//! make reuse of a closed chain impossible, and the well-formedness spec
//! functions pin down that every appended node is closed with the operand
//! count its comparison demands.

mod chain;
mod column;
mod constraint;
mod force_value;
mod query;
mod raw;
mod statement;
mod table;

pub use chain::OpenConstraint;
pub use column::Column;
pub use constraint::Comparison;
pub use constraint::Constraint;
pub use constraint::ConstraintType;
pub use constraint::constraint_wf;
pub use constraint::lemma_closed_node_stays_closed;
pub use constraint::operand_count_ok;
pub use force_value::ForceValue;
pub use query::Query;
pub use query::lemma_subquery_independent;
pub use query::query_wf;
pub use raw::Raw;
pub use raw::raw_wf;
pub use statement::Statement;
pub use statement::ToStatement;
pub use statement::lemma_float_round_trip;
pub use statement::lemma_identifier_round_trip;
pub use statement::lemma_integer_round_trip;
pub use statement::lemma_text_round_trip;
pub use statement::stmt_wf;
pub use table::Table;
