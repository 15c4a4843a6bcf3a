use vstd::prelude::*;

use crate::force_value::ForceValue;
use crate::query::Query;
use crate::query::query_wf;
use crate::raw::Raw;
use crate::raw::raw_wf;

verus! {

/// A value expression: anything that can stand where SQL expects a value.
///
/// A nested query (`Statement::Query`) owns a fully independent copy of a
/// [`Query`]; a value expression never holds a reference back to anything
/// that contains it, so the tree is acyclic by construction.
#[derive(Debug)]
pub enum Statement {
    /// Placeholder for an uninitialized slot.
    NoStatement,
    /// SQL `NULL`.
    Null,
    /// A column or table reference by name.
    Column(String),
    /// A string literal.
    StringValue(String),
    /// A nested, fully built query, owned by value.
    Query(Box<Query>),
    /// Literal SQL text plus positional substitution values.
    Raw(String, Vec<Statement>),
    /// An integer literal.
    I32(i32),
    /// A 32-bit IEEE 754 float literal, carried as its bit pattern.
    F32Bits(u32),
}

/// Well-formedness of a value expression: every constraint node reachable
/// through an embedded sub-query is closed, with the operand count its
/// comparison demands.
pub open spec fn stmt_wf(s: Statement) -> bool
    decreases s,
{
    match s {
        Statement::Query(q) => query_wf(*q),
        Statement::Raw(_, ps) => forall|i: int|
            0 <= i < ps@.len() ==> stmt_wf(#[trigger] ps@[i]),
        _ => true,
    }
}

impl Statement {
    /// Admits a 32-bit float literal by its IEEE 754 bit pattern; the
    /// pattern is stored unchanged, so the literal survives the round trip
    /// exactly.
    pub fn float_from_bits(bits: u32) -> (s: Statement)
        ensures
            s == Statement::F32Bits(bits),
            stmt_wf(s),
    {
        Statement::F32Bits(bits)
    }
}

impl Default for Statement {
    fn default() -> (s: Statement)
        ensures
            s is NoStatement,
    {
        Statement::NoStatement
    }
}

/// Conversion into a [`Statement`]: the single admission gate to the data
/// model. Every supported source type has exactly one mapping; the
/// conversion is total and infallible.
pub trait ToStatement: Sized {
    /// Relates a source value to the statement it converts to.
    spec fn converts_to(self, s: Statement) -> bool;

    /// Well-formedness carried by the source value: always true for plain
    /// literals, inherited for values that embed statements or queries.
    spec fn source_wf(self) -> bool;

    fn to_statement(self) -> (s: Statement)
        ensures
            self.converts_to(s),
            self.source_wf() ==> stmt_wf(s),
    ;
}

impl ToStatement for Statement {
    open spec fn converts_to(self, s: Statement) -> bool {
        s == self
    }

    open spec fn source_wf(self) -> bool {
        stmt_wf(self)
    }

    fn to_statement(self) -> (s: Statement) {
        self
    }
}

impl ToStatement for String {
    open spec fn converts_to(self, s: Statement) -> bool {
        s matches Statement::StringValue(t) && t == self
    }

    open spec fn source_wf(self) -> bool {
        true
    }

    fn to_statement(self) -> (s: Statement) {
        Statement::StringValue(self)
    }
}

impl ToStatement for &str {
    open spec fn converts_to(self, s: Statement) -> bool {
        s matches Statement::StringValue(t) && t@ == self@
    }

    open spec fn source_wf(self) -> bool {
        true
    }

    fn to_statement(self) -> (s: Statement) {
        Statement::StringValue(self.to_string())
    }
}

impl ToStatement for i32 {
    open spec fn converts_to(self, s: Statement) -> bool {
        s matches Statement::I32(i) && i == self
    }

    open spec fn source_wf(self) -> bool {
        true
    }

    fn to_statement(self) -> (s: Statement) {
        Statement::I32(self)
    }
}

impl ToStatement for Query {
    open spec fn converts_to(self, s: Statement) -> bool {
        s matches Statement::Query(q) && *q == self
    }

    open spec fn source_wf(self) -> bool {
        query_wf(self)
    }

    fn to_statement(self) -> (s: Statement) {
        Statement::Query(Box::new(self))
    }
}

impl ToStatement for Raw {
    open spec fn converts_to(self, s: Statement) -> bool {
        s matches Statement::Raw(t, ps) && t == self.value && ps@ == self.statements@
    }

    open spec fn source_wf(self) -> bool {
        raw_wf(self)
    }

    fn to_statement(self) -> (s: Statement) {
        Statement::Raw(self.value, self.statements)
    }
}

impl ToStatement for ForceValue {
    open spec fn converts_to(self, s: Statement) -> bool {
        match self {
            ForceValue::Null => s is Null,
            ForceValue::Column(c) => s matches Statement::Column(n) && n == c,
            ForceValue::StringValue(v) => s matches Statement::StringValue(t) && t == v,
        }
    }

    open spec fn source_wf(self) -> bool {
        true
    }

    fn to_statement(self) -> (s: Statement) {
        match self {
            ForceValue::Null => Statement::Null,
            ForceValue::Column(column) => Statement::Column(column),
            ForceValue::StringValue(value) => Statement::StringValue(value),
        }
    }
}

/// Round trip for string literals: reading back the statement a string
/// converts to yields exactly the original string.
pub proof fn lemma_text_round_trip(v: String, s: Statement)
    requires
        v.converts_to(s),
    ensures
        s matches Statement::StringValue(t) && t == v,
{
}

/// Round trip for integer literals: reading back the statement an integer
/// converts to yields exactly the original integer.
pub proof fn lemma_integer_round_trip(v: i32, s: Statement)
    requires
        v.converts_to(s),
    ensures
        s matches Statement::I32(i) && i == v,
{
}

/// Round trip for identifiers admitted through the forced column literal:
/// reading back yields exactly the original name.
pub proof fn lemma_identifier_round_trip(name: String, s: Statement)
    requires
        ForceValue::Column(name).converts_to(s),
    ensures
        s matches Statement::Column(n) && n == name,
{
}

/// Round trip for float literals: the bit pattern admitted through
/// [`Statement::float_from_bits`] is read back unchanged.
pub proof fn lemma_float_round_trip(bits: u32, s: Statement)
    requires
        s == Statement::F32Bits(bits),
    ensures
        s matches Statement::F32Bits(b) && b == bits,
{
}

} // verus!
