//! The expansion: classify the tokens, choose the type, render the expression.

use crate::tokens::{TokenInput, TokenInputView};
use vstd::prelude::*;

verus! {

/// Whether the caller left the wrapper's argument out: true when there is at
/// most one token, false from two tokens on.
pub open spec fn elides_unit_type(count: nat) -> bool {
    count <= 1
}

/// The type that the expansion names.
///
/// Without tokens it is the unit type. A single token is taken for a wrapper
/// of one argument and gets the unit type as that argument. Two or more tokens
/// are a whole type already and stand as they were written.
pub open spec fn chosen_type(input: TokenInputView) -> Seq<char> {
    if input.count() == 0 {
        "()"@
    } else if elides_unit_type(input.count()) {
        input.text + "<()>"@
    } else {
        input.text
    }
}

/// `None` by its full path, with `ty` as the option's payload type.
pub open spec fn typed_none_text(ty: Seq<char>) -> Seq<char> {
    "::core::option::Option::None::<"@ + ty + ">"@
}

/// The text that an invocation with the tokens `input` expands to.
pub open spec fn expansion_text(input: TokenInputView) -> Seq<char> {
    typed_none_text(chosen_type(input))
}

/// Counts the tokens up to two and says whether the unit type was elided.
pub fn elided_unit_type(tokens: &TokenInput) -> (elided: bool)
    ensures
        elided == elides_unit_type(tokens@.count()),
{
    let mut elided = true;
    let mut seen: u8 = 0;
    let mut at: usize = 0;
    while at < tokens.tokens.len()
        invariant_except_break
            seen == at,
            at <= 1,
            elided,
        ensures
            elided == (tokens.tokens.len() <= 1),
        decreases tokens.tokens.len() - at,
    {
        seen += 1;
        if seen > 1 {
            elided = false;
            break;
        }
        at += 1;
    }
    elided
}

/// Chooses the payload type for the caller's tokens.
pub fn type_argument(tokens: &TokenInput) -> (ty: String)
    ensures
        ty@ == chosen_type(tokens@),
{
    if tokens.tokens.len() == 0 {
        String::from_str("()")
    } else {
        let mut ty = tokens.text.clone();
        if elided_unit_type(tokens) {
            ty.append("<()>");
        }
        ty
    }
}

/// Renders `None` with an explicit payload type.
pub fn typed_none(ty: &str) -> (expr: String)
    ensures
        expr@ == typed_none_text(ty@),
{
    let mut expr = String::from_str("::core::option::Option::None::<");
    expr.append(ty);
    expr.append(">");
    expr
}

/// Expands an invocation: the text of a `None` whose type is fixed by the
/// caller's tokens.
pub fn turbonone(tokens: &TokenInput) -> (expansion: String)
    ensures
        expansion@ == expansion_text(tokens@),
{
    let ty = type_argument(tokens);
    typed_none(ty.as_str())
}

} // verus!
