//! What holds of every expansion.

use crate::expand::{chosen_type, expansion_text};
use crate::tokens::TokenInputView;
use vstd::prelude::*;

verus! {

/// Without tokens the expansion is `None` typed by the unit type, whatever
/// the rest of the input holds.
pub proof fn lemma_no_tokens(input: TokenInputView)
    requires
        input.count() == 0,
    ensures
        chosen_type(input) == "()"@,
        expansion_text(input) == "::core::option::Option::None::<()>"@,
{
    reveal_strlit("()");
    reveal_strlit(">");
    reveal_strlit("::core::option::Option::None::<");
    reveal_strlit("::core::option::Option::None::<()>");
    assert(expansion_text(input) =~= "::core::option::Option::None::<()>"@);
}

/// A single token `W` expands to `None` typed as `W<()>`: the token's text
/// stands first in the type clause and the unit type is its one argument.
pub proof fn lemma_single_token(input: TokenInputView)
    requires
        input.count() == 1,
    ensures
        chosen_type(input) == input.text + "<()>"@,
        expansion_text(input) == "::core::option::Option::None::<"@ + input.text + "<()>>"@,
{
    reveal_strlit("<()>");
    reveal_strlit(">");
    reveal_strlit("<()>>");
    assert(expansion_text(input) =~= "::core::option::Option::None::<"@ + input.text + "<()>>"@);
}

/// Two or more tokens `E` expand to `None` typed exactly as `E`: the type
/// clause holds the caller's text and nothing else.
pub proof fn lemma_full_type(input: TokenInputView)
    requires
        input.count() >= 2,
    ensures
        chosen_type(input) == input.text,
        expansion_text(input) == "::core::option::Option::None::<"@ + input.text + ">"@,
        expansion_text(input).len() == "::core::option::Option::None::<"@.len() + input.text.len()
            + 1,
{
    reveal_strlit(">");
}

/// The same token sequence always gives the same expansion.
pub proof fn lemma_same_tokens_same_expansion(a: TokenInputView, b: TokenInputView)
    requires
        a.tokens =~= b.tokens,
        a.text =~= b.text,
    ensures
        expansion_text(a) == expansion_text(b),
{
}

/// Of the tokens an expansion reads only whether there are none, one, or
/// more: two inputs with the same text and at least two tokens each expand
/// alike, however many tokens each has.
pub proof fn lemma_count_is_read_up_to_two(a: TokenInputView, b: TokenInputView)
    requires
        a.text == b.text,
        a.count() >= 2,
        b.count() >= 2,
    ensures
        expansion_text(a) == expansion_text(b),
{
}

/// Every expansion is a complete turbofish: it opens with the full path of
/// `None` and `::<`, closes with `>`, and holds the chosen type in between.
pub proof fn lemma_expansion_is_typed(input: TokenInputView)
    ensures
        "::core::option::Option::None::<"@.is_prefix_of(expansion_text(input)),
        ">"@.is_suffix_of(expansion_text(input)),
        expansion_text(input).len() == "::core::option::Option::None::<"@.len() + chosen_type(
            input,
        ).len() + 1,
{
    reveal_strlit(">");
    let open = "::core::option::Option::None::<"@;
    let whole = expansion_text(input);
    assert(whole.subrange(0, open.len() as int) =~= open);
    assert(whole.subrange(whole.len() - 1, whole.len() as int) =~= ">"@);
}

} // verus!
