//! Typed `None` expressions for generic `Option<T>` arguments.
//!
//! A call such as `f(None)` does not compile when `f` is generic over the
//! option's payload: nothing fixes `T`. This library computes the text of an
//! explicitly typed `None` from the tokens that a caller wrote in place of the
//! type: nothing, a bare one-argument wrapper such as `Box`, or a whole type
//! such as `Arc<Box<()>>`.

pub mod expand;
pub mod laws;
pub mod tokens;

pub use expand::{elided_unit_type, turbonone, type_argument, typed_none};
pub use tokens::{TokenInput, TokenInputView};
