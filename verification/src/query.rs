use vstd::prelude::*;

use crate::column::Column;
use crate::constraint::Constraint;
use crate::constraint::constraint_wf;
use crate::statement::Statement;
use crate::statement::ToStatement;
use crate::statement::stmt_wf;
use crate::table::Table;

verus! {

/// The aggregate root of the builder: a table descriptor, the selected
/// columns in call order, and the filter constraints in call order.
///
/// Exactly one live, mutable owner of a `Query` exists at any time. The
/// fluent methods consume the query and return the next state by value, so
/// a constraint chain holds the query exclusively while its node is open
/// and hands it back, intact, when the node closes.
#[derive(Debug)]
pub struct Query {
    /// The table the query reads from; the last `from` call wins.
    pub table: Table,
    /// The selected columns; the list only grows, in call order.
    pub columns: Vec<Column>,
    /// The closed filter constraints; the list only grows, in call order.
    pub constraints: Vec<Constraint>,
}

/// Well-formedness of a query: its table expression, every column
/// expression, and every constraint node are well-formed; in particular
/// every constraint in the list is closed with the operand count its
/// comparison demands.
pub open spec fn query_wf(q: Query) -> bool
    decreases q,
{
    &&& stmt_wf(q.table.value)
    &&& forall|i: int| 0 <= i < q.columns@.len() ==> stmt_wf(#[trigger] q.columns@[i].value)
    &&& forall|i: int|
        0 <= i < q.constraints@.len() ==> constraint_wf(#[trigger] q.constraints@[i])
}

impl Query {
    /// An empty query: no table, no columns, no constraints.
    pub fn new() -> (q: Query)
        ensures
            q.table.value is NoStatement,
            q.table.alias is None,
            q.columns@ == Seq::<Column>::empty(),
            q.constraints@ == Seq::<Constraint>::empty(),
            query_wf(q),
    {
        Query { table: Table::empty(), columns: Vec::new(), constraints: Vec::new() }
    }

    /// Sets the table to a descriptor wrapping the converted value,
    /// overwriting any table set before; columns and constraints are kept.
    pub fn from<T: ToStatement>(self, table: T) -> (q: Query)
        ensures
            table.converts_to(q.table.value),
            q.table.alias is None,
            q.columns@ == self.columns@,
            q.constraints@ == self.constraints@,
            query_wf(self) && table.source_wf() ==> query_wf(q),
    {
        let mut q = self;
        q.table = Table::new(table);

        q
    }

    /// Appends one column descriptor wrapping the converted value; all
    /// earlier columns are kept unchanged, in order.
    pub fn select<T: ToStatement>(self, column: T) -> (q: Query)
        ensures
            q.table == self.table,
            q.constraints@ == self.constraints@,
            q.columns@.len() == self.columns@.len() + 1,
            q.columns@.drop_last() == self.columns@,
            column.converts_to(q.columns@.last().value),
            q.columns@.last().alias is None,
            query_wf(self) && column.source_wf() ==> query_wf(q),
    {
        let mut q = self;
        q.columns.push(Column::new(column));

        q
    }

    /// Appends one column descriptor per element of `columns`, preserving
    /// input order; all earlier columns are kept unchanged.
    pub fn select_range<T: ToStatement>(self, columns: Vec<T>) -> (q: Query)
        ensures
            q.table == self.table,
            q.constraints@ == self.constraints@,
            q.columns@.len() == self.columns@.len() + columns@.len(),
            q.columns@.subrange(0, self.columns@.len() as int) == self.columns@,
            forall|i: int|
                0 <= i < columns@.len() ==> {
                    let col = #[trigger] q.columns@[self.columns@.len() + i];
                    columns@[i].converts_to(col.value) && col.alias is None
                },
            query_wf(self) && (forall|i: int|
                0 <= i < columns@.len() ==> (#[trigger] columns@[i]).source_wf())
                ==> query_wf(q),
    {
        let ghost base = self.columns@.len();
        let mut q = self;
        let mut rest = columns;

        while rest.len() > 0
            invariant
                q.table == self.table,
                q.constraints@ == self.constraints@,
                base == self.columns@.len(),
                rest@.len() <= columns@.len(),
                q.columns@.len() == base + columns@.len() - rest@.len(),
                q.columns@.subrange(0, base as int) == self.columns@,
                rest@ == columns@.subrange(q.columns@.len() - base, columns@.len() as int),
                forall|i: int|
                    0 <= i < q.columns@.len() - base ==> {
                        let col = #[trigger] q.columns@[base + i];
                        columns@[i].converts_to(col.value) && col.alias is None
                    },
                forall|i: int|
                    0 <= i < q.columns@.len() - base && columns@[i].source_wf() ==> stmt_wf(
                        #[trigger] q.columns@[base + i].value,
                    ),
            decreases rest@.len(),
        {
            let ghost prev_cols = q.columns@;
            let ghost prev_rest = rest@;
            let column = rest.remove(0);
            q.columns.push(Column::new(column));
            proof {
                assert(columns@[prev_cols.len() - base] == prev_rest[0]);
                assert(rest@ =~= columns@.subrange(q.columns@.len() - base, columns@.len() as int));
                assert(q.columns@.subrange(0, base as int) =~= prev_cols.subrange(0, base as int));
            }
        }

        proof {
            if query_wf(self) && (forall|i: int|
                0 <= i < columns@.len() ==> (#[trigger] columns@[i]).source_wf()) {
                assert forall|i: int| 0 <= i < q.columns@.len() implies stmt_wf(
                    #[trigger] q.columns@[i].value,
                ) by {
                    if i < base {
                        assert(q.columns@.subrange(0, base as int)[i] == self.columns@[i]);
                        assert(stmt_wf(self.columns@[i].value));
                    } else {
                        assert(columns@[i - base].source_wf());
                        assert(stmt_wf(q.columns@[base + (i - base)].value));
                    }
                }
                assert(query_wf(q));
            }
        }

        q
    }

    /// Appends a closed `AND ... = ...` constraint in one call: the left
    /// value seeds the node, the right value is its single operand. Table
    /// and columns are kept unchanged.
    pub fn and_equal<T: ToStatement, Y: ToStatement>(&mut self, left_value: T, right_value: Y)
        ensures
            final(self).table == old(self).table,
            final(self).columns@ == old(self).columns@,
            final(self).constraints@.len() == old(self).constraints@.len() + 1,
            final(self).constraints@.drop_last() == old(self).constraints@,
            ({
                let c = final(self).constraints@.last();
                &&& c.constraint_type is And
                &&& c.comparison is Equal
                &&& left_value.converts_to(c.right_value)
                &&& c.left_values@.len() == 1
                &&& right_value.converts_to(c.left_values@[0])
            }),
            query_wf(*old(self)) && left_value.source_wf() && right_value.source_wf()
                ==> query_wf(*final(self)),
    {
        self.constraints.push(Constraint::and_equal(left_value, right_value));
    }
}

impl Default for Query {
    fn default() -> (q: Query)
        ensures
            q.table.value is NoStatement,
            q.table.alias is None,
            q.columns@ == Seq::<Column>::empty(),
            q.constraints@ == Seq::<Constraint>::empty(),
            query_wf(q),
    {
        Query::new()
    }
}

/// An embedded sub-query is an independent copy, owned by value. If a
/// statement embedding `inner` stands at position `i` of a query's column
/// list, then after any further builder call — every one of them keeps the
/// existing columns as a prefix — the statement at `i` still embeds exactly
/// the same copy of `inner`. The converse needs no lemma: embedding moves
/// the inner query into the statement, so no other handle can reach the
/// embedded copy at all.
pub proof fn lemma_subquery_independent(
    inner: Query,
    s: Statement,
    before: Query,
    after: Query,
    i: int,
)
    requires
        inner.converts_to(s),
        0 <= i < before.columns@.len(),
        before.columns@[i].value == s,
        before.columns@.len() <= after.columns@.len(),
        after.columns@.subrange(0, before.columns@.len() as int) == before.columns@,
    ensures
        after.columns@[i].value == s,
        s matches Statement::Query(q) && *q == inner,
{
    assert(after.columns@.subrange(0, before.columns@.len() as int)[i] == before.columns@[i]);
}

} // verus!
