use vstd::prelude::*;

use crate::statement::Statement;
use crate::statement::ToStatement;
use crate::statement::stmt_wf;

verus! {

/// A selected column: a value expression with an optional alias.
#[derive(Debug)]
pub struct Column {
    /// The expression the column selects.
    pub value: Statement,
    /// An optional alias; never set by the builder itself.
    pub alias: Option<String>,
}

impl Column {
    /// A column descriptor wrapping the converted value, with no alias.
    pub fn new<T: ToStatement>(value: T) -> (c: Column)
        ensures
            value.converts_to(c.value),
            value.source_wf() ==> stmt_wf(c.value),
            c.alias is None,
    {
        Column { value: value.to_statement(), alias: None }
    }

    /// A column descriptor holding no value and no alias.
    pub fn empty() -> (c: Column)
        ensures
            c.value is NoStatement,
            c.alias is None,
    {
        Column { value: Statement::NoStatement, alias: None }
    }
}

} // verus!
