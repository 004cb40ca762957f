use vstd::prelude::*;
use crate::lattice::{InferredType, type_le};
use crate::pipeline::text_schema;
use crate::record_parser::{header_names, parse_rows, rows_well_formed};
use crate::literals::{is_boolean_literal, is_date_literal, is_float_literal, is_integer_literal};
use crate::type_inferencer::{
    column_nullable, column_state, column_type, lemma_column_state_reachable, lemma_observe_widens,
};

verus! {

/// The widening order is transitive.
pub proof fn lemma_type_le_transitive(a: InferredType, b: InferredType, c: InferredType)
    requires
        type_le(a, b),
        type_le(b, c),
    ensures
        type_le(a, c),
{
}

/// The schema of a well-formed text has one column per header name, in
/// header order, each named after its header entry.
pub proof fn lemma_schema_follows_header(text: Seq<char>)
    requires
        rows_well_formed(parse_rows(text)),
    ensures
        text_schema(text).len() == header_names(parse_rows(text)).len(),
        forall|j: int|
            0 <= j < text_schema(text).len() ==> (#[trigger] text_schema(text)[j]).0 == header_names(
                parse_rows(text),
            )[j],
{
}

/// Inference is a function of the text: the same text always yields the
/// same schema and the same rows.
pub proof fn lemma_inference_deterministic(a: Seq<char>, b: Seq<char>)
    requires
        a == b,
    ensures
        text_schema(a) == text_schema(b),
        parse_rows(a) == parse_rows(b),
{
}

/// Reading one more row never narrows a column's type and never makes a
/// nullable column non-nullable.
pub proof fn lemma_one_more_row_widens(rows: Seq<Seq<Seq<char>>>, j: int, k: int)
    requires
        0 <= k < rows.len(),
    ensures
        type_le(column_type(rows.take(k), j), column_type(rows.take(k + 1), j)),
        column_nullable(rows.take(k), j) ==> column_nullable(rows.take(k + 1), j),
{
    assert(rows.take(k + 1).drop_last() =~= rows.take(k));
    lemma_column_state_reachable(rows.take(k), j);
    lemma_observe_widens(column_state(rows.take(k), j), rows[k][j]);
}

/// For any column and any two prefixes of the rows, the type inferred from
/// the shorter is at most the type inferred from the longer.
pub proof fn lemma_widening_monotone(rows: Seq<Seq<Seq<char>>>, j: int, k: int, m: int)
    requires
        0 <= k <= m <= rows.len(),
    ensures
        type_le(column_type(rows.take(k), j), column_type(rows.take(m), j)),
        column_nullable(rows.take(k), j) ==> column_nullable(rows.take(m), j),
    decreases m - k,
{
    if k < m {
        lemma_widening_monotone(rows, j, k, m - 1);
        lemma_one_more_row_widens(rows, j, m - 1);
        lemma_type_le_transitive(
            column_type(rows.take(k), j),
            column_type(rows.take(m - 1), j),
            column_type(rows.take(m), j),
        );
    }
}

/// Every non-empty field of column `j` is a boolean literal.
pub open spec fn all_boolean(rows: Seq<Seq<Seq<char>>>, j: int) -> bool {
    forall|i: int| 0 <= i < rows.len() && (#[trigger] rows[i][j]).len() > 0 ==> is_boolean_literal(rows[i][j])
}

/// Every non-empty field of column `j` is a date literal.
pub open spec fn all_date(rows: Seq<Seq<Seq<char>>>, j: int) -> bool {
    forall|i: int| 0 <= i < rows.len() && (#[trigger] rows[i][j]).len() > 0 ==> is_date_literal(rows[i][j])
}

/// Every non-empty field of column `j` is an integer literal.
pub open spec fn all_integer(rows: Seq<Seq<Seq<char>>>, j: int) -> bool {
    forall|i: int| 0 <= i < rows.len() && (#[trigger] rows[i][j]).len() > 0 ==> is_integer_literal(rows[i][j])
}

/// Every non-empty field of column `j` is an integer or a float literal.
pub open spec fn all_number(rows: Seq<Seq<Seq<char>>>, j: int) -> bool {
    forall|i: int|
        0 <= i < rows.len() && (#[trigger] rows[i][j]).len() > 0 ==> is_integer_literal(rows[i][j])
            || is_float_literal(rows[i][j])
}

/// Some field of column `j` is non-empty.
pub open spec fn has_value(rows: Seq<Seq<Seq<char>>>, j: int) -> bool {
    exists|i: int| 0 <= i < rows.len() && (#[trigger] rows[i][j]).len() > 0
}

/// Some field of column `j` is empty.
pub open spec fn has_empty(rows: Seq<Seq<Seq<char>>>, j: int) -> bool {
    exists|i: int| 0 <= i < rows.len() && (#[trigger] rows[i][j]).len() == 0
}

/// The type of a column read straight off its values: `Integer` when it has
/// no value; else `Boolean` or `Date` when every value is one; else the
/// narrowest of `Integer`, `Float` and `Text` that admits every value.
pub open spec fn type_by_values(rows: Seq<Seq<Seq<char>>>, j: int) -> InferredType {
    if !has_value(rows, j) {
        InferredType::Integer
    } else if all_boolean(rows, j) {
        InferredType::Boolean
    } else if all_date(rows, j) {
        InferredType::Date
    } else if all_integer(rows, j) {
        InferredType::Integer
    } else if all_number(rows, j) {
        InferredType::Float
    } else {
        InferredType::Text
    }
}

/// Column `j` exists in every row.
pub open spec fn column_in_rows(rows: Seq<Seq<Seq<char>>>, j: int) -> bool {
    0 <= j && forall|i: int| 0 <= i < rows.len() ==> j < (#[trigger] rows[i]).len()
}

proof fn lemma_state_by_values(rows: Seq<Seq<Seq<char>>>, j: int)
    requires
        column_in_rows(rows, j),
    ensures
        column_state(rows, j).seen_value == has_value(rows, j),
        column_state(rows, j).saw_empty == has_empty(rows, j),
        column_state(rows, j).all_boolean == all_boolean(rows, j),
        column_state(rows, j).all_date == all_date(rows, j),
        (column_state(rows, j).numeric == InferredType::Integer) == all_integer(rows, j),
        (column_state(rows, j).numeric != InferredType::Text) == all_number(rows, j),
    decreases rows.len(),
{
    if rows.len() > 0 {
        let prev = rows.drop_last();
        let n = rows.len() - 1;
        let v = rows[n][j];
        assert forall|i: int| 0 <= i < prev.len() implies j < (#[trigger] prev[i]).len() by {
            assert(prev[i] == rows[i]);
        }
        lemma_state_by_values(prev, j);
        lemma_column_state_reachable(prev, j);
        assert(has_value(rows, j) == (has_value(prev, j) || v.len() > 0)) by {
            if has_value(rows, j) && v.len() == 0 {
                let i = choose|i: int| 0 <= i < rows.len() && (#[trigger] rows[i][j]).len() > 0;
                assert(prev[i] == rows[i]);
            }
            if has_value(prev, j) {
                let i = choose|i: int| 0 <= i < prev.len() && (#[trigger] prev[i][j]).len() > 0;
                assert(prev[i] == rows[i]);
            }
        }
        assert(has_empty(rows, j) == (has_empty(prev, j) || v.len() == 0)) by {
            if has_empty(rows, j) && v.len() > 0 {
                let i = choose|i: int| 0 <= i < rows.len() && (#[trigger] rows[i][j]).len() == 0;
                assert(prev[i] == rows[i]);
            }
            if has_empty(prev, j) {
                let i = choose|i: int| 0 <= i < prev.len() && (#[trigger] prev[i][j]).len() == 0;
                assert(prev[i] == rows[i]);
            }
        }
        assert forall|i: int| 0 <= i < n implies #[trigger] rows[i][j] == prev[i][j] by {
            assert(prev[i] == rows[i]);
        }
        assert(all_boolean(rows, j) == (all_boolean(prev, j) && (v.len() > 0 ==> is_boolean_literal(v))));
        assert(all_date(rows, j) == (all_date(prev, j) && (v.len() > 0 ==> is_date_literal(v))));
        assert(all_integer(rows, j) == (all_integer(prev, j) && (v.len() > 0 ==> is_integer_literal(v))));
        assert(all_number(rows, j) == (all_number(prev, j) && (v.len() > 0 ==> (is_integer_literal(v)
            || is_float_literal(v)))));
    }
}

/// A column's inferred type and nullability depend only on which grammars
/// its values match: the type is `type_by_values`, and the column is
/// nullable exactly when one of its fields is empty.
pub proof fn lemma_column_type_by_values(rows: Seq<Seq<Seq<char>>>, j: int)
    requires
        column_in_rows(rows, j),
    ensures
        column_type(rows, j) == type_by_values(rows, j),
        column_nullable(rows, j) == has_empty(rows, j),
{
    lemma_state_by_values(rows, j);
    lemma_column_state_reachable(rows, j);
}

} // verus!
