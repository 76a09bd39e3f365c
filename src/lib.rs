//! A scanner for a small expression language: it turns source text into
//! operator and punctuation tokens, and collects the characters it does not
//! recognise as errors without stopping.
pub mod cli;
pub mod error;
pub mod scanner;
pub mod token;

pub use cli::{Args, Commands};
pub use error::TokenizeError;
pub use scanner::{scan, ScanOutput};
pub use token::{Token, TokenPair};
