use vstd::prelude::*;

use crate::statement::Statement;
use crate::statement::ToStatement;
use crate::statement::stmt_wf;

verus! {

/// The table a query reads from: a value expression with an optional alias.
#[derive(Debug)]
pub struct Table {
    /// The expression naming the table.
    pub value: Statement,
    /// An optional alias; never set by the builder itself.
    pub alias: Option<String>,
}

impl Table {
    /// A table descriptor wrapping the converted value, with no alias.
    pub fn new<T: ToStatement>(value: T) -> (t: Table)
        ensures
            value.converts_to(t.value),
            value.source_wf() ==> stmt_wf(t.value),
            t.alias is None,
    {
        Table { value: value.to_statement(), alias: None }
    }

    /// A table descriptor holding no value and no alias.
    pub fn empty() -> (t: Table)
        ensures
            t.value is NoStatement,
            t.alias is None,
    {
        Table { value: Statement::NoStatement, alias: None }
    }
}

impl Default for Table {
    fn default() -> (t: Table)
        ensures
            t.value is NoStatement,
            t.alias is None,
    {
        Table::empty()
    }
}

} // verus!
