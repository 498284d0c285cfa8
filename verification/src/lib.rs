//! Layout and printing of TypeScript syntax trees.
pub mod ast;
pub mod doc;
mod emit;
pub mod emit_cases;
pub mod laws;
pub mod layout;
pub mod list_format;
pub mod positions;
pub mod precedence;
pub mod printer;
pub mod text_writer;
pub mod token_laws;
pub mod tokens;
