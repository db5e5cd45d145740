//! A tokenizer for a small, Ruby-like scripting language.
//!
//! The library turns a source text, held in memory as a `String`, into a
//! sequence of classified tokens: identifiers (comments, strings, numbers and
//! variables), keywords, operators and separators. The caller pulls tokens one
//! at a time with [`token_stream::TokenStream::read_next`]; every token carries
//! its lexeme and the 1-based line and column at which it starts.

pub mod input_stream;
pub mod lexicon;
pub mod scan;
pub mod token_stream;
pub mod laws;
