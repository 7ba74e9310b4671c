//! What native macros work with: a stream of tokens, and the context of the
//! macro call.

use crate::ast::{Span, Token};
use vstd::prelude::*;

verus! {

/// A stream of tokens.
#[derive(Debug)]
pub struct TokenStream {
    pub tokens: Vec<Token>,
}

/// The context in which a macro is expanded.
#[derive(Debug)]
pub struct MacroContext {
    /// The span of the macro call.
    pub macro_span: Span,
}

} // verus!
