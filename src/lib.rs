//! Infers a relational schema from comma-separated text and renders a
//! `CREATE TABLE` statement for it.
//!
//! The text is split into rows (`record_parser`), each column's type and
//! nullability is inferred from its fields (`type_inferencer`), and the
//! statement is rendered (`statement_builder`); `pipeline` joins the three.
//! `session` holds the decisions of the form that drives them.
pub mod error;
pub mod lattice;
pub mod laws;
pub mod literals;
pub mod pipeline;
pub mod record_parser;
pub mod session;
pub mod statement_builder;
pub mod type_inferencer;

pub use error::CsvError;
pub use lattice::InferredType;
pub use pipeline::{generate_create_table, infer_table_schema};
pub use session::Msg;
pub use type_inferencer::{ColumnSchema, TableSchema};
