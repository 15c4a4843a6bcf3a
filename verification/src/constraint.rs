use vstd::prelude::*;

use crate::statement::Statement;
use crate::statement::ToStatement;
use crate::statement::stmt_wf;

verus! {

/// The boolean combinator joining a constraint to the ones before it.
#[derive(Clone, Copy, Debug, PartialEq, Eq, Structural)]
pub enum ConstraintType {
    /// No combinator requested.
    NoType,
    /// Joined with `AND`.
    And,
    /// Joined with `OR`.
    Or,
}

/// The comparison operator of a constraint node. `NoComparison` marks a
/// node that is still open; every terminal method replaces it exactly once.
#[derive(Clone, Copy, Debug, PartialEq, Eq, Structural)]
pub enum Comparison {
    NoComparison,
    Equal,
    Different,
    GreaterThan,
    LessThan,
    GreaterThanOrEqual,
    LessThanOrEqual,
    Between,
    Like,
    NotLike,
    In,
    NotIn,
    IsNull,
    IsNotNull,
}

/// The operand count a closed comparison demands: none for the null tests,
/// two for `Between`, any number for `In`/`NotIn`, one otherwise. A node
/// whose comparison is still unset demands no count: it is never closed.
pub open spec fn operand_count_ok(comparison: Comparison, n: nat) -> bool {
    match comparison {
        Comparison::NoComparison => false,
        Comparison::IsNull | Comparison::IsNotNull => n == 0,
        Comparison::Between => n == 2,
        Comparison::In | Comparison::NotIn => true,
        _ => n == 1,
    }
}

/// One filter condition: a combinator, a comparison, the right-hand seed
/// expression the chain started with, and the comparison's operands.
#[derive(Debug)]
pub struct Constraint {
    /// How this constraint joins the ones before it.
    pub constraint_type: ConstraintType,
    /// The expression the chain was seeded with, kept apart from the
    /// operands.
    pub right_value: Statement,
    /// The comparison operator; `NoComparison` while the node is open.
    pub comparison: Comparison,
    /// The comparison's operands, in the order they were given.
    pub left_values: Vec<Statement>,
}

/// Well-formedness of a closed constraint node: the operand count matches
/// the comparison, and every expression held is itself well-formed.
pub open spec fn constraint_wf(c: Constraint) -> bool
    decreases c,
{
    &&& operand_count_ok(c.comparison, c.left_values@.len())
    &&& stmt_wf(c.right_value)
    &&& forall|i: int| 0 <= i < c.left_values@.len() ==> stmt_wf(#[trigger] c.left_values@[i])
}

impl Constraint {
    /// The open state: the comparison is unset and no operand has been
    /// stored. Only an open node may be closed by a terminal method, and
    /// a node leaves this state exactly once.
    pub open spec fn is_open(self) -> bool {
        self.comparison is NoComparison && self.left_values@.len() == 0
    }

    /// An open node with the given combinator, seeded with the converted
    /// value.
    pub fn new<T: ToStatement>(constraint_type: ConstraintType, value: T) -> (c: Constraint)
        ensures
            c.constraint_type == constraint_type,
            value.converts_to(c.right_value),
            value.source_wf() ==> stmt_wf(c.right_value),
            c.is_open(),
    {
        let constraint = Constraint {
            constraint_type,
            right_value: value.to_statement(),
            comparison: Comparison::NoComparison,
            left_values: Vec::new(),
        };

        constraint
    }

    /// An open node joined with `AND`.
    pub fn and<T: ToStatement>(value: T) -> (c: Constraint)
        ensures
            c.constraint_type is And,
            value.converts_to(c.right_value),
            value.source_wf() ==> stmt_wf(c.right_value),
            c.is_open(),
    {
        Constraint::new(ConstraintType::And, value)
    }

    /// An open node joined with `OR`.
    pub fn or<T: ToStatement>(value: T) -> (c: Constraint)
        ensures
            c.constraint_type is Or,
            value.converts_to(c.right_value),
            value.source_wf() ==> stmt_wf(c.right_value),
            c.is_open(),
    {
        Constraint::new(ConstraintType::Or, value)
    }

    fn set_comparison_no_value(self, comparison: Comparison) -> (c: Constraint)
        ensures
            c.constraint_type == self.constraint_type,
            c.right_value == self.right_value,
            c.comparison == comparison,
            c.left_values@ == self.left_values@,
    {
        let mut c = self;
        c.comparison = comparison;
        c
    }

    fn set_comparison<T: ToStatement>(self, comparison: Comparison, value: T) -> (c: Constraint)
        ensures
            c.constraint_type == self.constraint_type,
            c.right_value == self.right_value,
            c.comparison == comparison,
            c.left_values@.len() == self.left_values@.len() + 1,
            c.left_values@.drop_last() == self.left_values@,
            value.converts_to(c.left_values@.last()),
            value.source_wf() ==> stmt_wf(c.left_values@.last()),
    {
        let mut c = self;
        c.comparison = comparison;
        c.left_values.push(value.to_statement());
        c
    }

    fn set_comparison_vec<T: ToStatement>(self, comparison: Comparison, values: Vec<T>) -> (c:
        Constraint)
        ensures
            c.constraint_type == self.constraint_type,
            c.right_value == self.right_value,
            c.comparison == comparison,
            c.left_values@.len() == self.left_values@.len() + values@.len(),
            c.left_values@.subrange(0, self.left_values@.len() as int) == self.left_values@,
            forall|i: int|
                0 <= i < values@.len() ==> values@[i].converts_to(
                    #[trigger] c.left_values@[self.left_values@.len() + i],
                ),
            forall|i: int|
                0 <= i < values@.len() && values@[i].source_wf() ==> stmt_wf(
                    #[trigger] c.left_values@[self.left_values@.len() + i],
                ),
    {
        let mut c = self;
        c.comparison = comparison;

        let ghost base = c.left_values@.len();
        let mut rest = values;

        while rest.len() > 0
            invariant
                c.constraint_type == self.constraint_type,
                c.right_value == self.right_value,
                c.comparison == comparison,
                base == self.left_values@.len(),
                rest@.len() <= values@.len(),
                c.left_values@.len() == base + values@.len() - rest@.len(),
                c.left_values@.subrange(0, base as int) == self.left_values@,
                rest@ == values@.subrange(
                    c.left_values@.len() - base,
                    values@.len() as int,
                ),
                forall|i: int|
                    0 <= i < c.left_values@.len() - base ==> values@[i].converts_to(
                        #[trigger] c.left_values@[base + i],
                    ),
                forall|i: int|
                    0 <= i < c.left_values@.len() - base && values@[i].source_wf() ==> stmt_wf(
                        #[trigger] c.left_values@[base + i],
                    ),
            decreases rest@.len(),
        {
            let ghost prev_left = c.left_values@;
            let ghost prev_rest = rest@;
            let value = rest.remove(0);
            c.left_values.push(value.to_statement());
            proof {
                assert(values@[prev_left.len() - base] == prev_rest[0]);
                assert(rest@ =~= values@.subrange(
                    c.left_values@.len() - base,
                    values@.len() as int,
                ));
                assert(c.left_values@.subrange(0, base as int) =~= prev_left.subrange(
                    0,
                    base as int,
                ));
            }
        }

        c
    }

    /// Closes the node with `Equal` and the single converted operand.
    pub fn equal<T: ToStatement>(self, value: T) -> (c: Constraint)
        requires
            self.is_open(),
        ensures
            c.constraint_type == self.constraint_type,
            c.right_value == self.right_value,
            c.comparison is Equal,
            c.left_values@.len() == 1,
            value.converts_to(c.left_values@[0]),
            stmt_wf(self.right_value) && value.source_wf() ==> constraint_wf(c),
    {
        self.set_comparison(Comparison::Equal, value)
    }

    /// Closes the node with `Different` (SQL `<>`) and the single converted
    /// operand.
    pub fn different<T: ToStatement>(self, value: T) -> (c: Constraint)
        requires
            self.is_open(),
        ensures
            c.constraint_type == self.constraint_type,
            c.right_value == self.right_value,
            c.comparison is Different,
            c.left_values@.len() == 1,
            value.converts_to(c.left_values@[0]),
            stmt_wf(self.right_value) && value.source_wf() ==> constraint_wf(c),
    {
        self.set_comparison(Comparison::Different, value)
    }

    /// Closes the node with `GreaterThan` and the single converted operand.
    pub fn greater_than<T: ToStatement>(self, value: T) -> (c: Constraint)
        requires
            self.is_open(),
        ensures
            c.constraint_type == self.constraint_type,
            c.right_value == self.right_value,
            c.comparison is GreaterThan,
            c.left_values@.len() == 1,
            value.converts_to(c.left_values@[0]),
            stmt_wf(self.right_value) && value.source_wf() ==> constraint_wf(c),
    {
        self.set_comparison(Comparison::GreaterThan, value)
    }

    /// Closes the node with `LessThan` and the single converted operand.
    pub fn less_than<T: ToStatement>(self, value: T) -> (c: Constraint)
        requires
            self.is_open(),
        ensures
            c.constraint_type == self.constraint_type,
            c.right_value == self.right_value,
            c.comparison is LessThan,
            c.left_values@.len() == 1,
            value.converts_to(c.left_values@[0]),
            stmt_wf(self.right_value) && value.source_wf() ==> constraint_wf(c),
    {
        self.set_comparison(Comparison::LessThan, value)
    }

    /// Closes the node with `GreaterThanOrEqual` and the single converted
    /// operand.
    pub fn greater_than_or_equal<T: ToStatement>(self, value: T) -> (c: Constraint)
        requires
            self.is_open(),
        ensures
            c.constraint_type == self.constraint_type,
            c.right_value == self.right_value,
            c.comparison is GreaterThanOrEqual,
            c.left_values@.len() == 1,
            value.converts_to(c.left_values@[0]),
            stmt_wf(self.right_value) && value.source_wf() ==> constraint_wf(c),
    {
        self.set_comparison(Comparison::GreaterThanOrEqual, value)
    }

    /// Closes the node with `LessThanOrEqual` and the single converted
    /// operand.
    pub fn less_than_or_equal<T: ToStatement>(self, value: T) -> (c: Constraint)
        requires
            self.is_open(),
        ensures
            c.constraint_type == self.constraint_type,
            c.right_value == self.right_value,
            c.comparison is LessThanOrEqual,
            c.left_values@.len() == 1,
            value.converts_to(c.left_values@[0]),
            stmt_wf(self.right_value) && value.source_wf() ==> constraint_wf(c),
    {
        self.set_comparison(Comparison::LessThanOrEqual, value)
    }

    /// Closes the node with `Between` and the two converted bounds, in the
    /// order they were given: no reordering, even if the bounds are
    /// reversed.
    pub fn between<T: ToStatement>(self, start: T, end: T) -> (c: Constraint)
        requires
            self.is_open(),
        ensures
            c.constraint_type == self.constraint_type,
            c.right_value == self.right_value,
            c.comparison is Between,
            c.left_values@.len() == 2,
            start.converts_to(c.left_values@[0]),
            end.converts_to(c.left_values@[1]),
            stmt_wf(self.right_value) && start.source_wf() && end.source_wf()
                ==> constraint_wf(c),
    {
        let mut c = self;
        c.comparison = Comparison::Between;
        c.left_values.push(start.to_statement());
        c.left_values.push(end.to_statement());
        c
    }

    /// Closes the node with `Like` and the single converted operand.
    pub fn like<T: ToStatement>(self, value: T) -> (c: Constraint)
        requires
            self.is_open(),
        ensures
            c.constraint_type == self.constraint_type,
            c.right_value == self.right_value,
            c.comparison is Like,
            c.left_values@.len() == 1,
            value.converts_to(c.left_values@[0]),
            stmt_wf(self.right_value) && value.source_wf() ==> constraint_wf(c),
    {
        self.set_comparison(Comparison::Like, value)
    }

    /// Closes the node with `NotLike` and the single converted operand.
    pub fn not_like<T: ToStatement>(self, value: T) -> (c: Constraint)
        requires
            self.is_open(),
        ensures
            c.constraint_type == self.constraint_type,
            c.right_value == self.right_value,
            c.comparison is NotLike,
            c.left_values@.len() == 1,
            value.converts_to(c.left_values@[0]),
            stmt_wf(self.right_value) && value.source_wf() ==> constraint_wf(c),
    {
        self.set_comparison(Comparison::NotLike, value)
    }

    /// Closes the node with `In` and one converted operand per element of
    /// `values`, in input order. An empty input is legal and yields a
    /// closed node with no operands.
    pub fn in_<T: ToStatement>(self, values: Vec<T>) -> (c: Constraint)
        requires
            self.is_open(),
        ensures
            c.constraint_type == self.constraint_type,
            c.right_value == self.right_value,
            c.comparison is In,
            c.left_values@.len() == values@.len(),
            forall|i: int|
                0 <= i < values@.len() ==> values@[i].converts_to(#[trigger] c.left_values@[i]),
            stmt_wf(self.right_value) && (forall|i: int|
                0 <= i < values@.len() ==> (#[trigger] values@[i]).source_wf())
                ==> constraint_wf(c),
    {
        let c = self.set_comparison_vec(Comparison::In, values);
        proof {
            assert forall|i: int| 0 <= i < values@.len() implies values@[i].converts_to(
                #[trigger] c.left_values@[i],
            ) by {
                assert(values@[i].converts_to(c.left_values@[self.left_values@.len() + i]));
            }
            if stmt_wf(self.right_value) && (forall|i: int|
                0 <= i < values@.len() ==> (#[trigger] values@[i]).source_wf()) {
                assert forall|i: int| 0 <= i < c.left_values@.len() implies stmt_wf(
                    #[trigger] c.left_values@[i],
                ) by {
                    assert(values@[i].source_wf());
                    assert(stmt_wf(c.left_values@[self.left_values@.len() + i]));
                }
                assert(constraint_wf(c));
            }
        }
        c
    }

    /// Closes the node with `NotIn` and one converted operand per element
    /// of `values`, in input order. An empty input is legal.
    pub fn not_in<T: ToStatement>(self, values: Vec<T>) -> (c: Constraint)
        requires
            self.is_open(),
        ensures
            c.constraint_type == self.constraint_type,
            c.right_value == self.right_value,
            c.comparison is NotIn,
            c.left_values@.len() == values@.len(),
            forall|i: int|
                0 <= i < values@.len() ==> values@[i].converts_to(#[trigger] c.left_values@[i]),
            stmt_wf(self.right_value) && (forall|i: int|
                0 <= i < values@.len() ==> (#[trigger] values@[i]).source_wf())
                ==> constraint_wf(c),
    {
        let c = self.set_comparison_vec(Comparison::NotIn, values);
        proof {
            assert forall|i: int| 0 <= i < values@.len() implies values@[i].converts_to(
                #[trigger] c.left_values@[i],
            ) by {
                assert(values@[i].converts_to(c.left_values@[self.left_values@.len() + i]));
            }
            if stmt_wf(self.right_value) && (forall|i: int|
                0 <= i < values@.len() ==> (#[trigger] values@[i]).source_wf()) {
                assert forall|i: int| 0 <= i < c.left_values@.len() implies stmt_wf(
                    #[trigger] c.left_values@[i],
                ) by {
                    assert(values@[i].source_wf());
                    assert(stmt_wf(c.left_values@[self.left_values@.len() + i]));
                }
                assert(constraint_wf(c));
            }
        }
        c
    }

    /// Closes the node with `IsNull`; the comparison takes no operand.
    pub fn is_null(self) -> (c: Constraint)
        requires
            self.is_open(),
        ensures
            c.constraint_type == self.constraint_type,
            c.right_value == self.right_value,
            c.comparison is IsNull,
            c.left_values@.len() == 0,
            stmt_wf(self.right_value) ==> constraint_wf(c),
    {
        self.set_comparison_no_value(Comparison::IsNull)
    }

    /// Closes the node with `IsNotNull`; the comparison takes no operand.
    pub fn is_not_null(self) -> (c: Constraint)
        requires
            self.is_open(),
        ensures
            c.constraint_type == self.constraint_type,
            c.right_value == self.right_value,
            c.comparison is IsNotNull,
            c.left_values@.len() == 0,
            stmt_wf(self.right_value) ==> constraint_wf(c),
    {
        self.set_comparison_no_value(Comparison::IsNotNull)
    }

    /// Builds and closes an `AND ... = ...` node in one call: the left
    /// value seeds the node, the right value is its single operand.
    pub fn and_equal<T: ToStatement, Y: ToStatement>(left_value: T, right_value: Y) -> (c:
        Constraint)
        ensures
            c.constraint_type is And,
            c.comparison is Equal,
            left_value.converts_to(c.right_value),
            c.left_values@.len() == 1,
            right_value.converts_to(c.left_values@[0]),
            left_value.source_wf() && right_value.source_wf() ==> constraint_wf(c),
    {
        let constraint = Constraint::and(left_value);
        constraint.equal(right_value)
    }
}

/// A well-formed node is closed: it never satisfies the open-state
/// requirement of the terminal methods again, so a node that has been
/// appended to a query cannot be closed a second time.
pub proof fn lemma_closed_node_stays_closed(c: Constraint)
    requires
        constraint_wf(c),
    ensures
        !c.is_open(),
{
}

} // verus!
