//! What the lexer reports about source text. The machine never sees these:
//! they are here for the front end that turns text into programs.

pub mod errors;
pub mod tokens;
