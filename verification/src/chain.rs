use vstd::prelude::*;

use crate::constraint::Constraint;
use crate::constraint::constraint_wf;
use crate::query::Query;
use crate::query::query_wf;
use crate::statement::ToStatement;
use crate::statement::stmt_wf;

verus! {

/// A constraint chain in its open state: the node holds its combinator and
/// right-hand seed, its comparison is still unset, and it owns the parent
/// query exclusively. The terminal comparison methods consume the chain,
/// close the node, append it to the query's constraint list, and hand the
/// query back; a chain cannot be kept or reused after it closes.
#[derive(Debug)]
pub struct OpenConstraint {
    /// The parent query, checked out for the duration of the open state.
    pub query: Query,
    /// The open node: combinator and seed set, comparison unset.
    pub node: Constraint,
}

impl Query {
    /// Begins a constraint chain joined with `AND`: creates an open node
    /// seeded with the converted value and hands it exclusive ownership of
    /// the query until a terminal comparison method closes it. The
    /// requested combinator is stored verbatim, even for the first
    /// constraint of a query.
    pub fn start_and<T: ToStatement>(self, value: T) -> (oc: OpenConstraint)
        ensures
            oc.query == self,
            oc.node.constraint_type is And,
            oc.node.is_open(),
            value.converts_to(oc.node.right_value),
            value.source_wf() ==> stmt_wf(oc.node.right_value),
    {
        OpenConstraint { query: self, node: Constraint::and(value) }
    }

    /// Begins a constraint chain joined with `OR`; otherwise as
    /// [`Query::start_and`].
    pub fn start_or<T: ToStatement>(self, value: T) -> (oc: OpenConstraint)
        ensures
            oc.query == self,
            oc.node.constraint_type is Or,
            oc.node.is_open(),
            value.converts_to(oc.node.right_value),
            value.source_wf() ==> stmt_wf(oc.node.right_value),
    {
        OpenConstraint { query: self, node: Constraint::or(value) }
    }
}

impl OpenConstraint {
    fn append(query: Query, node: Constraint) -> (q: Query)
        ensures
            q.table == query.table,
            q.columns@ == query.columns@,
            q.constraints@.len() == query.constraints@.len() + 1,
            q.constraints@.drop_last() == query.constraints@,
            q.constraints@.last() == node,
            query_wf(query) && constraint_wf(node) ==> query_wf(q),
    {
        let mut q = query;
        q.constraints.push(node);
        q
    }

    /// Closes the node with `Equal` and the single converted operand,
    /// appends it, and returns the query.
    pub fn equal<T: ToStatement>(self, value: T) -> (q: Query)
        requires
            self.node.is_open(),
        ensures
            q.table == self.query.table,
            q.columns@ == self.query.columns@,
            q.constraints@.len() == self.query.constraints@.len() + 1,
            q.constraints@.drop_last() == self.query.constraints@,
            ({
                let c = q.constraints@.last();
                &&& c.constraint_type == self.node.constraint_type
                &&& c.right_value == self.node.right_value
                &&& c.comparison is Equal
                &&& c.left_values@.len() == 1
                &&& value.converts_to(c.left_values@[0])
            }),
            query_wf(self.query) && stmt_wf(self.node.right_value) && value.source_wf()
                ==> query_wf(q),
    {
        let node = self.node.equal(value);
        Self::append(self.query, node)
    }

    /// Closes the node with `Different` (SQL `<>`); otherwise as
    /// [`OpenConstraint::equal`].
    pub fn different<T: ToStatement>(self, value: T) -> (q: Query)
        requires
            self.node.is_open(),
        ensures
            q.table == self.query.table,
            q.columns@ == self.query.columns@,
            q.constraints@.len() == self.query.constraints@.len() + 1,
            q.constraints@.drop_last() == self.query.constraints@,
            ({
                let c = q.constraints@.last();
                &&& c.constraint_type == self.node.constraint_type
                &&& c.right_value == self.node.right_value
                &&& c.comparison is Different
                &&& c.left_values@.len() == 1
                &&& value.converts_to(c.left_values@[0])
            }),
            query_wf(self.query) && stmt_wf(self.node.right_value) && value.source_wf()
                ==> query_wf(q),
    {
        let node = self.node.different(value);
        Self::append(self.query, node)
    }

    /// Closes the node with `GreaterThan`; otherwise as
    /// [`OpenConstraint::equal`].
    pub fn greater_than<T: ToStatement>(self, value: T) -> (q: Query)
        requires
            self.node.is_open(),
        ensures
            q.table == self.query.table,
            q.columns@ == self.query.columns@,
            q.constraints@.len() == self.query.constraints@.len() + 1,
            q.constraints@.drop_last() == self.query.constraints@,
            ({
                let c = q.constraints@.last();
                &&& c.constraint_type == self.node.constraint_type
                &&& c.right_value == self.node.right_value
                &&& c.comparison is GreaterThan
                &&& c.left_values@.len() == 1
                &&& value.converts_to(c.left_values@[0])
            }),
            query_wf(self.query) && stmt_wf(self.node.right_value) && value.source_wf()
                ==> query_wf(q),
    {
        let node = self.node.greater_than(value);
        Self::append(self.query, node)
    }

    /// Closes the node with `LessThan`; otherwise as
    /// [`OpenConstraint::equal`].
    pub fn less_than<T: ToStatement>(self, value: T) -> (q: Query)
        requires
            self.node.is_open(),
        ensures
            q.table == self.query.table,
            q.columns@ == self.query.columns@,
            q.constraints@.len() == self.query.constraints@.len() + 1,
            q.constraints@.drop_last() == self.query.constraints@,
            ({
                let c = q.constraints@.last();
                &&& c.constraint_type == self.node.constraint_type
                &&& c.right_value == self.node.right_value
                &&& c.comparison is LessThan
                &&& c.left_values@.len() == 1
                &&& value.converts_to(c.left_values@[0])
            }),
            query_wf(self.query) && stmt_wf(self.node.right_value) && value.source_wf()
                ==> query_wf(q),
    {
        let node = self.node.less_than(value);
        Self::append(self.query, node)
    }

    /// Closes the node with `GreaterThanOrEqual`; otherwise as
    /// [`OpenConstraint::equal`].
    pub fn greater_than_or_equal<T: ToStatement>(self, value: T) -> (q: Query)
        requires
            self.node.is_open(),
        ensures
            q.table == self.query.table,
            q.columns@ == self.query.columns@,
            q.constraints@.len() == self.query.constraints@.len() + 1,
            q.constraints@.drop_last() == self.query.constraints@,
            ({
                let c = q.constraints@.last();
                &&& c.constraint_type == self.node.constraint_type
                &&& c.right_value == self.node.right_value
                &&& c.comparison is GreaterThanOrEqual
                &&& c.left_values@.len() == 1
                &&& value.converts_to(c.left_values@[0])
            }),
            query_wf(self.query) && stmt_wf(self.node.right_value) && value.source_wf()
                ==> query_wf(q),
    {
        let node = self.node.greater_than_or_equal(value);
        Self::append(self.query, node)
    }

    /// Closes the node with `LessThanOrEqual`; otherwise as
    /// [`OpenConstraint::equal`].
    pub fn less_than_or_equal<T: ToStatement>(self, value: T) -> (q: Query)
        requires
            self.node.is_open(),
        ensures
            q.table == self.query.table,
            q.columns@ == self.query.columns@,
            q.constraints@.len() == self.query.constraints@.len() + 1,
            q.constraints@.drop_last() == self.query.constraints@,
            ({
                let c = q.constraints@.last();
                &&& c.constraint_type == self.node.constraint_type
                &&& c.right_value == self.node.right_value
                &&& c.comparison is LessThanOrEqual
                &&& c.left_values@.len() == 1
                &&& value.converts_to(c.left_values@[0])
            }),
            query_wf(self.query) && stmt_wf(self.node.right_value) && value.source_wf()
                ==> query_wf(q),
    {
        let node = self.node.less_than_or_equal(value);
        Self::append(self.query, node)
    }

    /// Closes the node with `Between` and the two converted bounds, in the
    /// order they were given: no reordering, even if the bounds are
    /// reversed.
    pub fn between<T: ToStatement>(self, start: T, end: T) -> (q: Query)
        requires
            self.node.is_open(),
        ensures
            q.table == self.query.table,
            q.columns@ == self.query.columns@,
            q.constraints@.len() == self.query.constraints@.len() + 1,
            q.constraints@.drop_last() == self.query.constraints@,
            ({
                let c = q.constraints@.last();
                &&& c.constraint_type == self.node.constraint_type
                &&& c.right_value == self.node.right_value
                &&& c.comparison is Between
                &&& c.left_values@.len() == 2
                &&& start.converts_to(c.left_values@[0])
                &&& end.converts_to(c.left_values@[1])
            }),
            query_wf(self.query) && stmt_wf(self.node.right_value) && start.source_wf()
                && end.source_wf() ==> query_wf(q),
    {
        let node = self.node.between(start, end);
        Self::append(self.query, node)
    }

    /// Closes the node with `Like`; otherwise as [`OpenConstraint::equal`].
    pub fn like<T: ToStatement>(self, value: T) -> (q: Query)
        requires
            self.node.is_open(),
        ensures
            q.table == self.query.table,
            q.columns@ == self.query.columns@,
            q.constraints@.len() == self.query.constraints@.len() + 1,
            q.constraints@.drop_last() == self.query.constraints@,
            ({
                let c = q.constraints@.last();
                &&& c.constraint_type == self.node.constraint_type
                &&& c.right_value == self.node.right_value
                &&& c.comparison is Like
                &&& c.left_values@.len() == 1
                &&& value.converts_to(c.left_values@[0])
            }),
            query_wf(self.query) && stmt_wf(self.node.right_value) && value.source_wf()
                ==> query_wf(q),
    {
        let node = self.node.like(value);
        Self::append(self.query, node)
    }

    /// Closes the node with `NotLike`; otherwise as
    /// [`OpenConstraint::equal`].
    pub fn not_like<T: ToStatement>(self, value: T) -> (q: Query)
        requires
            self.node.is_open(),
        ensures
            q.table == self.query.table,
            q.columns@ == self.query.columns@,
            q.constraints@.len() == self.query.constraints@.len() + 1,
            q.constraints@.drop_last() == self.query.constraints@,
            ({
                let c = q.constraints@.last();
                &&& c.constraint_type == self.node.constraint_type
                &&& c.right_value == self.node.right_value
                &&& c.comparison is NotLike
                &&& c.left_values@.len() == 1
                &&& value.converts_to(c.left_values@[0])
            }),
            query_wf(self.query) && stmt_wf(self.node.right_value) && value.source_wf()
                ==> query_wf(q),
    {
        let node = self.node.not_like(value);
        Self::append(self.query, node)
    }

    /// Closes the node with `In` and one converted operand per element of
    /// `values`, in input order; an empty input is legal and yields a
    /// closed node with no operands.
    pub fn in_<T: ToStatement>(self, values: Vec<T>) -> (q: Query)
        requires
            self.node.is_open(),
        ensures
            q.table == self.query.table,
            q.columns@ == self.query.columns@,
            q.constraints@.len() == self.query.constraints@.len() + 1,
            q.constraints@.drop_last() == self.query.constraints@,
            ({
                let c = q.constraints@.last();
                &&& c.constraint_type == self.node.constraint_type
                &&& c.right_value == self.node.right_value
                &&& c.comparison is In
                &&& c.left_values@.len() == values@.len()
                &&& forall|i: int|
                    0 <= i < values@.len() ==> values@[i].converts_to(
                        #[trigger] c.left_values@[i],
                    )
            }),
            query_wf(self.query) && stmt_wf(self.node.right_value) && (forall|i: int|
                0 <= i < values@.len() ==> (#[trigger] values@[i]).source_wf())
                ==> query_wf(q),
    {
        let node = self.node.in_(values);
        Self::append(self.query, node)
    }

    /// Closes the node with `NotIn`; otherwise as [`OpenConstraint::in_`].
    pub fn not_in<T: ToStatement>(self, values: Vec<T>) -> (q: Query)
        requires
            self.node.is_open(),
        ensures
            q.table == self.query.table,
            q.columns@ == self.query.columns@,
            q.constraints@.len() == self.query.constraints@.len() + 1,
            q.constraints@.drop_last() == self.query.constraints@,
            ({
                let c = q.constraints@.last();
                &&& c.constraint_type == self.node.constraint_type
                &&& c.right_value == self.node.right_value
                &&& c.comparison is NotIn
                &&& c.left_values@.len() == values@.len()
                &&& forall|i: int|
                    0 <= i < values@.len() ==> values@[i].converts_to(
                        #[trigger] c.left_values@[i],
                    )
            }),
            query_wf(self.query) && stmt_wf(self.node.right_value) && (forall|i: int|
                0 <= i < values@.len() ==> (#[trigger] values@[i]).source_wf())
                ==> query_wf(q),
    {
        let node = self.node.not_in(values);
        Self::append(self.query, node)
    }

    /// Closes the node with `IsNull`, which takes no operand.
    pub fn is_null(self) -> (q: Query)
        requires
            self.node.is_open(),
        ensures
            q.table == self.query.table,
            q.columns@ == self.query.columns@,
            q.constraints@.len() == self.query.constraints@.len() + 1,
            q.constraints@.drop_last() == self.query.constraints@,
            ({
                let c = q.constraints@.last();
                &&& c.constraint_type == self.node.constraint_type
                &&& c.right_value == self.node.right_value
                &&& c.comparison is IsNull
                &&& c.left_values@.len() == 0
            }),
            query_wf(self.query) && stmt_wf(self.node.right_value) ==> query_wf(q),
    {
        let node = self.node.is_null();
        Self::append(self.query, node)
    }

    /// Closes the node with `IsNotNull`, which takes no operand.
    pub fn is_not_null(self) -> (q: Query)
        requires
            self.node.is_open(),
        ensures
            q.table == self.query.table,
            q.columns@ == self.query.columns@,
            q.constraints@.len() == self.query.constraints@.len() + 1,
            q.constraints@.drop_last() == self.query.constraints@,
            ({
                let c = q.constraints@.last();
                &&& c.constraint_type == self.node.constraint_type
                &&& c.right_value == self.node.right_value
                &&& c.comparison is IsNotNull
                &&& c.left_values@.len() == 0
            }),
            query_wf(self.query) && stmt_wf(self.node.right_value) ==> query_wf(q),
    {
        let node = self.node.is_not_null();
        Self::append(self.query, node)
    }
}

} // verus!
