//! Context tracking for a single-pass JavaScript tokenizer: decides, token by
//! token, whether an expression may start next (so that `/` reads as a
//! regular expression or as division, and `{` as a block or an object
//! literal) and which lexical contexts are open.

pub mod token;
pub mod context;
pub mod state;
pub mod lexer;
pub mod laws;
