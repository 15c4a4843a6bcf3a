use vstd::prelude::*;

use crate::statement::Statement;
use crate::statement::ToStatement;
use crate::statement::stmt_wf;

verus! {

/// An escape hatch: literal SQL text plus positional substitution values.
#[derive(Debug)]
pub struct Raw {
    /// The literal SQL text.
    pub value: String,
    /// The substitution values, in positional order.
    pub statements: Vec<Statement>,
}

/// Well-formedness of a raw fragment: every substitution value is a
/// well-formed statement.
pub open spec fn raw_wf(r: Raw) -> bool {
    forall|i: int| 0 <= i < r.statements@.len() ==> stmt_wf(#[trigger] r.statements@[i])
}

impl Raw {
    /// A raw fragment holding only literal text, with no substitution values.
    pub fn new(value: String) -> (r: Raw)
        ensures
            r.value == value,
            r.statements@ == Seq::<Statement>::empty(),
            raw_wf(r),
    {
        Raw { value, statements: Vec::new() }
    }

    /// A raw fragment with a single substitution value.
    pub fn with_parameter<T: ToStatement>(value: String, arg: T) -> (r: Raw)
        ensures
            r.value == value,
            r.statements@.len() == 1,
            arg.converts_to(r.statements@[0]),
            arg.source_wf() ==> raw_wf(r),
    {
        let mut raw = Raw::new(value);

        raw.statements.push(arg.to_statement());

        raw
    }

    /// A raw fragment with one substitution value per element of `args`,
    /// in input order.
    pub fn with_parameters<T: ToStatement>(value: String, args: Vec<T>) -> (r: Raw)
        ensures
            r.value == value,
            r.statements@.len() == args@.len(),
            forall|i: int| 0 <= i < args@.len() ==> args@[i].converts_to(#[trigger] r.statements@[i]),
            (forall|i: int| 0 <= i < args@.len() ==> (#[trigger] args@[i]).source_wf()) ==> raw_wf(r),
    {
        let mut raw = Raw::new(value);
        let mut rest = args;

        while rest.len() > 0
            invariant
                raw.value == value,
                rest@.len() <= args@.len(),
                raw.statements@.len() + rest@.len() == args@.len(),
                rest@ == args@.subrange(raw.statements@.len() as int, args@.len() as int),
                forall|i: int|
                    0 <= i < raw.statements@.len() ==> args@[i].converts_to(
                        #[trigger] raw.statements@[i],
                    ),
                forall|i: int|
                    0 <= i < raw.statements@.len() && args@[i].source_wf() ==> stmt_wf(
                        #[trigger] raw.statements@[i],
                    ),
            decreases rest@.len(),
        {
            let ghost prev_stmts = raw.statements@;
            let ghost prev_rest = rest@;
            let arg = rest.remove(0);
            raw.statements.push(arg.to_statement());
            proof {
                assert(args@[prev_stmts.len() as int] == prev_rest[0]);
                assert(rest@ =~= args@.subrange(raw.statements@.len() as int, args@.len() as int));
            }
        }

        proof {
            if forall|i: int| 0 <= i < args@.len() ==> (#[trigger] args@[i]).source_wf() {
                assert forall|i: int| 0 <= i < raw.statements@.len() implies stmt_wf(
                    #[trigger] raw.statements@[i],
                ) by {
                    assert(args@[i].source_wf());
                }
                assert(raw_wf(raw));
            }
        }

        raw
    }
}

} // verus!
