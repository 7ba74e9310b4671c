//! A native module registry for a small scripting runtime, together with the
//! declaration dispatch of its parser and the token-table logic of its code
//! generator.

pub mod assoc;
pub mod ast;
pub mod generate;
pub mod hash;
pub mod item;
pub mod macros;
pub mod module;
pub mod native;
pub mod runtime;
pub mod laws;
