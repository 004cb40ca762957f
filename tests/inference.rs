use csvtosql::error::{check_media_type, CsvError};
use csvtosql::lattice::InferredType;
use csvtosql::literals::{is_boolean_text, is_date_text, is_float_text, is_integer_text};
use csvtosql::pipeline::{generate_create_table, infer_table_schema};
use csvtosql::record_parser::{chars_of, parse_records, split_rows, trim_chars};
use csvtosql::statement_builder::build_statement;
use csvtosql::type_inferencer::{infer_schema, TableSchema};

fn chars(s: &str) -> Vec<char> {
    s.chars().collect()
}

fn field(s: &str) -> Vec<char> {
    chars(s)
}

fn types(schema: &TableSchema) -> Vec<(String, InferredType, bool)> {
    schema
        .columns
        .iter()
        .map(|c| (c.name.clone(), c.column_type, c.nullable))
        .collect()
}

fn column_type_of(text: &str) -> InferredType {
    infer_table_schema(text).unwrap().columns[0].column_type
}

#[test]
fn round_trip_sanity() {
    let text = "id,name,age\n1,Alice,30\n2,Bob,25";
    let schema = infer_table_schema(text).unwrap();
    assert_eq!(
        types(&schema),
        vec![
            ("id".to_string(), InferredType::Integer, false),
            ("name".to_string(), InferredType::Text, false),
            ("age".to_string(), InferredType::Integer, false),
        ]
    );
    let sql = generate_create_table(text, "default_db", "default_table").unwrap();
    assert_eq!(
        sql,
        "CREATE TABLE default_db.default_table (id INT NOT NULL, name VARCHAR(255) NOT NULL, age INT NOT NULL);"
    );
}

#[test]
fn mixed_numeric_column_is_float() {
    assert_eq!(column_type_of("x\n1\n2.5"), InferredType::Float);
    assert_eq!(column_type_of("x\n2.5\n1"), InferredType::Float);
    assert_eq!(column_type_of("x\n-1\n+2.50"), InferredType::Float);
}

#[test]
fn nullable_integer_column() {
    let schema = infer_table_schema("a,b\n1,x\n,y\n3,z").unwrap();
    assert_eq!(schema.columns[0].column_type, InferredType::Integer);
    assert!(schema.columns[0].nullable);
    assert!(!schema.columns[1].nullable);
}

#[test]
fn all_empty_column_stays_integer_and_nullable() {
    let schema = infer_table_schema("a,b\n,x\n,y").unwrap();
    assert_eq!(schema.columns[0].column_type, InferredType::Integer);
    assert!(schema.columns[0].nullable);
}

#[test]
fn header_only_gives_integer_columns() {
    let schema = infer_table_schema("a,b\n").unwrap();
    assert_eq!(
        types(&schema),
        vec![
            ("a".to_string(), InferredType::Integer, false),
            ("b".to_string(), InferredType::Integer, false),
        ]
    );
}

#[test]
fn malformed_row_is_rejected() {
    let r = infer_table_schema("a,b,c\n1,2,3\n1,2");
    assert_eq!(
        r.err(),
        Some(CsvError::RowFieldCountMismatch { row: 2, expected: 3, found: 2 })
    );
    let r = generate_create_table("a,b,c\n1,2\n1,2,3,4", "d", "t");
    assert_eq!(
        r.err(),
        Some(CsvError::RowFieldCountMismatch { row: 1, expected: 3, found: 2 })
    );
    let r = generate_create_table("a,b\n1,2,3", "d", "t");
    assert_eq!(
        r.err(),
        Some(CsvError::RowFieldCountMismatch { row: 1, expected: 2, found: 3 })
    );
}

#[test]
fn empty_input_is_rejected() {
    assert_eq!(infer_table_schema("").err(), Some(CsvError::EmptyInputError));
    assert_eq!(infer_table_schema("\n\r\n\n").err(), Some(CsvError::EmptyInputError));
    assert_eq!(
        generate_create_table("", "d", "t").err(),
        Some(CsvError::EmptyInputError)
    );
}

#[test]
fn boolean_column_loses_boolean_on_other_value() {
    assert_eq!(column_type_of("flag\ntrue\nfalse"), InferredType::Boolean);
    assert_eq!(column_type_of("flag\nTRUE\nFalse\n\ntrue"), InferredType::Boolean);
    assert_eq!(column_type_of("flag\ntrue\nfalse\nmaybe"), InferredType::Text);
    assert_eq!(column_type_of("flag\ntrue\n1"), InferredType::Text);
    assert_eq!(column_type_of("flag\n1\n0"), InferredType::Integer);
}

#[test]
fn date_column() {
    assert_eq!(column_type_of("d\n2024-01-31\n1999-12-01"), InferredType::Date);
    assert_eq!(column_type_of("d\n2024-01-31\nlater"), InferredType::Text);
    assert_eq!(column_type_of("d\n2024-13-01"), InferredType::Text);
    assert_eq!(column_type_of("d\n2024-01-31\n3"), InferredType::Text);
}

#[test]
fn non_numeric_value_widens_to_text() {
    assert_eq!(column_type_of("x\n1\n2.5\nabc\n4"), InferredType::Text);
    assert_eq!(column_type_of("x\n1.\n"), InferredType::Text);
    assert_eq!(column_type_of("x\n.5"), InferredType::Text);
    assert_eq!(column_type_of("x\n 30"), InferredType::Text);
}

#[test]
fn prefixes_only_widen() {
    let rows = ["1", "2.5", "abc"];
    let mut text = String::from("x");
    let mut seen = vec![column_type_of("x")];
    for r in rows.iter() {
        text.push('\n');
        text.push_str(r);
        seen.push(column_type_of(&text));
    }
    assert_eq!(
        seen,
        vec![
            InferredType::Integer,
            InferredType::Integer,
            InferredType::Float,
            InferredType::Text
        ]
    );
    for w in seen.windows(2) {
        assert!(w[0].is_at_most(&w[1]));
    }
}

#[test]
fn inference_is_deterministic() {
    let text = "a,b,c\n1,true,2020-02-02\n2.0,,x";
    let one = types(&infer_table_schema(text).unwrap());
    let two = types(&infer_table_schema(text).unwrap());
    assert_eq!(one, two);
}

#[test]
fn columns_follow_header() {
    let schema = infer_table_schema("c,a,b,a\n1,2,3,4").unwrap();
    let names: Vec<String> = schema.columns.iter().map(|c| c.name.clone()).collect();
    assert_eq!(names, vec!["c", "a", "b", "a"]);
}

#[test]
fn header_names_are_trimmed() {
    let t = parse_records(" id ,\tname\r\n1,x").unwrap();
    assert_eq!(t.header, vec!["id".to_string(), "name".to_string()]);
    assert_eq!(t.records, vec![vec![field("1"), field("x")]]);
}

#[test]
fn quoted_fields() {
    let text = "a,b\n\"x,y\",\"say \"\"hi\"\"\"\n\"two\nlines\",2";
    let t = parse_records(text).unwrap();
    assert_eq!(
        t.records,
        vec![
            vec![field("x,y"), field("say \"hi\"")],
            vec![field("two\nlines"), field("2")],
        ]
    );
}

#[test]
fn quoted_empty_field_counts_as_field() {
    let rows = split_rows(&chars("a\n\"\"\n\n"));
    assert_eq!(rows, vec![vec![field("a")], vec![field("")]]);
}

#[test]
fn crlf_rows_and_trailing_newline() {
    let rows = split_rows(&chars("a,b\r\n1,2\r\n"));
    assert_eq!(rows, vec![vec![field("a"), field("b")], vec![field("1"), field("2")]]);
    let rows = split_rows(&chars("a,,b"));
    assert_eq!(rows, vec![vec![field("a"), field(""), field("b")]]);
}

#[test]
fn builder_names_types_and_nulls() {
    let header = vec!["f".to_string(), "b".to_string(), "d".to_string(), "t".to_string()];
    let records = vec![
        vec![field("1.5"), field("true"), field("2020-01-01"), field("")],
        vec![field(""), field("false"), field("2020-01-02"), field("x")],
    ];
    let schema = infer_schema(&header, &records);
    assert_eq!(
        build_statement(&schema, "db", "tbl"),
        "CREATE TABLE db.tbl (f FLOAT NULL, b BOOLEAN NOT NULL, d DATE NOT NULL, t VARCHAR(255) NULL);"
    );
}

#[test]
fn literal_grammars() {
    assert!(is_integer_text(&chars("-42")));
    assert!(is_integer_text(&chars("+7")));
    assert!(!is_integer_text(&chars("-")));
    assert!(!is_integer_text(&chars("")));
    assert!(!is_integer_text(&chars("1.0")));
    assert!(is_float_text(&chars("-0.5")));
    assert!(!is_float_text(&chars("1.2.3")));
    assert!(!is_float_text(&chars("12")));
    assert!(is_boolean_text(&chars("TrUe")));
    assert!(!is_boolean_text(&chars("yes")));
    assert!(is_date_text(&chars("2000-02-29")));
    assert!(!is_date_text(&chars("2000-00-10")));
    assert!(!is_date_text(&chars("2000/01/10")));
}

#[test]
fn trimming_and_chars() {
    assert_eq!(trim_chars(&chars("  a b \t")), chars("a b"));
    assert_eq!(trim_chars(&chars(" \n ")), chars(""));
    assert_eq!(chars_of("héllo"), chars("héllo"));
}

#[test]
fn media_type_check() {
    assert_eq!(check_media_type("text/csv"), Ok(()));
    assert_eq!(check_media_type("text/plain"), Err(CsvError::UnsupportedMediaError));
    assert_eq!(check_media_type(""), Err(CsvError::UnsupportedMediaError));
}

#[test]
fn error_messages() {
    assert_eq!(CsvError::EmptyInputError.message(), "The input holds no rows.");
    assert_eq!(CsvError::UnsupportedMediaError.message(), "Selected file is not a csv.");
}
