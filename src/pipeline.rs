use vstd::prelude::*;
use crate::error::CsvError;
use crate::lattice::InferredType;
use crate::record_parser::{header_names, is_parse_error, parse_records, parse_rows, rows_well_formed};
use crate::statement_builder::{build_statement, create_table_text};
use crate::type_inferencer::{infer_schema, schema_of, TableSchema};

verus! {

/// The schema of a well-formed text: trimmed header names, with types and
/// nullability inferred from the data rows.
pub open spec fn text_schema(text: Seq<char>) -> Seq<(Seq<char>, InferredType, bool)> {
    schema_of(header_names(parse_rows(text)), parse_rows(text).drop_first())
}

/// Parses the text and infers its schema.
pub fn infer_table_schema(text: &str) -> (r: Result<TableSchema, CsvError>)
    ensures
        r is Ok <==> rows_well_formed(parse_rows(text@)),
        r matches Ok(s) ==> s@ == text_schema(text@),
        r matches Err(e) ==> is_parse_error(parse_rows(text@), e),
{
    let t = match parse_records(text) {
        Ok(t) => t,
        Err(e) => return Err(e),
    };
    let ghost rows = parse_rows(text@);
    assert(t.records.deep_view().len() == rows.len() - 1);
    assert forall|i: int| 0 <= i < t.records.deep_view().len() implies (#[trigger] t.records.deep_view()[i]).len()
        == t.header.len() by {
        assert(t.records.deep_view()[i] == rows[i + 1]);
        assert(header_names(rows).len() == rows[0].len());
        assert(t.header@.map_values(|s: String| s@).len() == t.header@.len());
    }
    Ok(infer_schema(&t.header, &t.records))
}

/// Parses the text, infers its schema and renders the `CREATE TABLE`
/// statement for `database.table`.
pub fn generate_create_table(text: &str, database: &str, table: &str) -> (r: Result<String, CsvError>)
    ensures
        r is Ok <==> rows_well_formed(parse_rows(text@)),
        r matches Ok(s) ==> s@ == create_table_text(database@, table@, text_schema(text@)),
        r matches Err(e) ==> is_parse_error(parse_rows(text@), e),
{
    match infer_table_schema(text) {
        Ok(schema) => Ok(build_statement(&schema, database, table)),
        Err(e) => Err(e),
    }
}

} // verus!
