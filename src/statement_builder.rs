use vstd::prelude::*;
use crate::lattice::{InferredType, sql_type_name};
use crate::type_inferencer::{ColumnSchema, TableSchema};

verus! {

/// `NULL` or `NOT NULL`.
pub open spec fn null_clause(nullable: bool) -> Seq<char> {
    if nullable {
        "NULL"@
    } else {
        "NOT NULL"@
    }
}

/// One column definition: name, SQL type and null clause, space separated.
pub open spec fn column_definition(c: (Seq<char>, InferredType, bool)) -> Seq<char> {
    c.0 + " "@ + sql_type_name(c.1) + " "@ + null_clause(c.2)
}

/// The column definitions joined by `, `.
pub open spec fn column_list(cols: Seq<(Seq<char>, InferredType, bool)>) -> Seq<char>
    decreases cols.len(),
{
    if cols.len() == 0 {
        seq![]
    } else if cols.len() == 1 {
        column_definition(cols[0])
    } else {
        column_list(cols.drop_last()) + ", "@ + column_definition(cols.last())
    }
}

/// `CREATE TABLE database.table (definitions);` with names as given.
pub open spec fn create_table_text(
    database: Seq<char>,
    table: Seq<char>,
    cols: Seq<(Seq<char>, InferredType, bool)>,
) -> Seq<char> {
    "CREATE TABLE "@ + database + "."@ + table + " ("@ + column_list(cols) + ");"@
}

fn append_column(out: &mut String, c: &ColumnSchema)
    ensures
        final(out)@ == old(out)@ + column_definition(c@),
{
    out.append(c.name.as_str());
    out.append(" ");
    out.append(c.column_type.sql_name());
    out.append(" ");
    if c.nullable {
        out.append("NULL");
    } else {
        out.append("NOT NULL");
    }
}

/// Renders the `CREATE TABLE` statement for the schema. Names are written
/// as given, without quoting; columns keep header order.
pub fn build_statement(schema: &TableSchema, database: &str, table: &str) -> (r: String)
    ensures
        r@ == create_table_text(database@, table@, schema@),
{
    let mut out = String::new();
    out.append("CREATE TABLE ");
    out.append(database);
    out.append(".");
    out.append(table);
    out.append(" (");
    let ghost head = out@;
    let cols = &schema.columns;
    let mut i: usize = 0;
    while i < cols.len()
        invariant
            i <= cols.len(),
            cols == &schema.columns,
            out@ == head + column_list(schema@.take(i as int)),
        decreases cols.len() - i,
    {
        let ghost before = out@;
        assert(schema@.take(i + 1).drop_last() =~= schema@.take(i as int));
        assert(schema@.take(i + 1).last() == cols@[i as int]@);
        if i > 0 {
            out.append(", ");
        }
        append_column(&mut out, &cols[i]);
        proof {
            if i == 0 {
                assert(schema@.take(1) =~= seq![cols@[0]@]);
                assert(out@ =~= head + column_list(schema@.take(1)));
            } else {
                assert(out@ =~= head + column_list(schema@.take(i + 1)));
            }
        }
        i = i + 1;
    }
    assert(schema@.take(i as int) =~= schema@);
    out.append(");");
    assert(out@ =~= create_table_text(database@, table@, schema@));
    out
}

} // verus!
