//! The caller's tokens, as plain values.

use vstd::prelude::*;

verus! {

/// What an expansion reads of the tokens written at a call site.
///
/// The two fields describe one token sequence: `tokens` holds the source text
/// of each top-level token in order (a bracketed group is one token), `text`
/// the source text of the sequence as a whole. Only the number of tokens and
/// the whole text take part in an expansion.
pub struct TokenInput {
    pub tokens: Vec<String>,
    pub text: String,
}

/// The mathematical value of a [`TokenInput`].
pub struct TokenInputView {
    pub tokens: Seq<Seq<char>>,
    pub text: Seq<char>,
}

impl View for TokenInput {
    type V = TokenInputView;

    open spec fn view(&self) -> TokenInputView {
        TokenInputView { tokens: self.tokens@.map_values(|t: String| t@), text: self.text@ }
    }
}

impl TokenInputView {
    /// The number of top-level tokens.
    pub open spec fn count(self) -> nat {
        self.tokens.len()
    }
}

} // verus!
