//! A schema-definition language compiler: `enum` and `model` declarations
//! with typed fields and modifier properties are tokenized, parsed into a
//! typed syntax tree, checked for duplicate names and dangling references,
//! and turned into one SQL `CREATE TABLE` statement per model.

pub mod error;
pub mod laws;
pub mod numbers;
pub mod parser;
pub mod schema;
pub mod sql;
pub mod text;
pub mod token;
pub mod tokenizer;
pub mod types;
pub mod value;

pub use schema::Schema;
pub use value::Value;
