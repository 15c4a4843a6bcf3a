use vstd::prelude::*;

verus! {

/// A forced literal: picks the target variant explicitly where the plain
/// conversions would be ambiguous, such as a column reference that should
/// not be read as a string literal.
#[derive(Debug)]
pub enum ForceValue {
    /// Convert to SQL `NULL`.
    Null,
    /// Convert to a column reference with the given name.
    Column(String),
    /// Convert to a string literal.
    StringValue(String),
}

} // verus!
