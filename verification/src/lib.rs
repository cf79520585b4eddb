//! Coffee dial-in library: recipe storage format, form and argument
//! handling, validation of numeric input, and the JSON/SVG text helpers.

pub mod cli;
pub mod digits;
pub mod edit;
pub mod error;
pub mod form;
pub mod http;
pub mod json;
pub mod laws;
pub mod number;
pub mod page;
pub mod prediction;
pub mod split;
pub mod store;
pub mod text;
