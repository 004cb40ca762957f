use vstd::prelude::*;
use crate::lattice::{InferredType, type_le};
use crate::literals::{is_boolean_literal, is_date_literal, is_float_literal, is_integer_literal, is_boolean_text, is_date_text, is_float_text, is_integer_text, lemma_boolean_excludes, lemma_date_excludes};
use crate::record_parser::lemma_chars_deep_view;

verus! {

/// What has been learnt of one column from the fields read so far.
#[derive(Clone, Copy, Debug, PartialEq, Eq, Structural)]
pub struct ColumnState {
    /// The numeric candidate: `Integer`, `Float` or `Text`.
    pub numeric: InferredType,
    /// No non-empty field so far has failed the boolean grammar.
    pub all_boolean: bool,
    /// No non-empty field so far has failed the date grammar.
    pub all_date: bool,
    /// Some non-empty field has been read.
    pub seen_value: bool,
    /// Some empty field has been read.
    pub saw_empty: bool,
}

pub open spec fn initial_state() -> ColumnState {
    ColumnState {
        numeric: InferredType::Integer,
        all_boolean: true,
        all_date: true,
        seen_value: false,
        saw_empty: false,
    }
}

/// Widens a numeric candidate just enough to admit `v`.
pub open spec fn widen_numeric(t: InferredType, v: Seq<char>) -> InferredType {
    match t {
        InferredType::Integer => {
            if is_integer_literal(v) {
                InferredType::Integer
            } else if is_float_literal(v) {
                InferredType::Float
            } else {
                InferredType::Text
            }
        },
        InferredType::Float => {
            if is_integer_literal(v) || is_float_literal(v) {
                InferredType::Float
            } else {
                InferredType::Text
            }
        },
        _ => InferredType::Text,
    }
}

/// Reads one field of the column.
pub open spec fn observe(st: ColumnState, v: Seq<char>) -> ColumnState {
    if v.len() == 0 {
        ColumnState { saw_empty: true, ..st }
    } else {
        ColumnState {
            numeric: widen_numeric(st.numeric, v),
            all_boolean: st.all_boolean && is_boolean_literal(v),
            all_date: st.all_date && is_date_literal(v),
            seen_value: true,
            saw_empty: st.saw_empty,
        }
    }
}

/// The type a column has come to: `Integer` while no value has been seen;
/// `Boolean` or `Date` while every value is of that kind; else the numeric
/// candidate.
pub open spec fn resolve(st: ColumnState) -> InferredType {
    if !st.seen_value {
        InferredType::Integer
    } else if st.all_boolean {
        InferredType::Boolean
    } else if st.all_date {
        InferredType::Date
    } else {
        st.numeric
    }
}

/// The state of column `j` after the given rows.
pub open spec fn column_state(rows: Seq<Seq<Seq<char>>>, j: int) -> ColumnState
    decreases rows.len(),
{
    if rows.len() == 0 {
        initial_state()
    } else {
        observe(column_state(rows.drop_last(), j), rows.last()[j])
    }
}

/// The inferred type of column `j`.
pub open spec fn column_type(rows: Seq<Seq<Seq<char>>>, j: int) -> InferredType {
    resolve(column_state(rows, j))
}

/// Column `j` is nullable: one of its fields is empty.
pub open spec fn column_nullable(rows: Seq<Seq<Seq<char>>>, j: int) -> bool {
    column_state(rows, j).saw_empty
}

/// The schema of the rows under the given column names: name, type and
/// nullability of each column, in header order.
pub open spec fn schema_of(names: Seq<Seq<char>>, rows: Seq<Seq<Seq<char>>>) -> Seq<
    (Seq<char>, InferredType, bool),
> {
    Seq::new(names.len(), |j: int| (names[j], column_type(rows, j), column_nullable(rows, j)))
}

/// Every row has `n` fields.
pub open spec fn rows_have_width(rows: Seq<Seq<Seq<char>>>, n: int) -> bool {
    forall|i: int| 0 <= i < rows.len() ==> (#[trigger] rows[i]).len() == n
}

/// The states that reading fields can lead to.
pub open spec fn reachable(st: ColumnState) -> bool {
    &&& !st.seen_value ==> st.all_boolean && st.all_date && st.numeric == InferredType::Integer
    &&& st.seen_value && st.all_boolean ==> !st.all_date && st.numeric == InferredType::Text
    &&& st.seen_value && st.all_date ==> st.numeric == InferredType::Text
    &&& st.numeric == InferredType::Integer || st.numeric == InferredType::Float || st.numeric
        == InferredType::Text
}

/// Reading a field keeps a state reachable and never narrows its type.
pub proof fn lemma_observe_widens(st: ColumnState, v: Seq<char>)
    requires
        reachable(st),
    ensures
        reachable(observe(st, v)),
        type_le(resolve(st), resolve(observe(st, v))),
        st.saw_empty ==> observe(st, v).saw_empty,
{
    if v.len() > 0 {
        if is_boolean_literal(v) {
            lemma_boolean_excludes(v);
        }
        if is_date_literal(v) {
            lemma_date_excludes(v);
        }
    }
}

/// Every state that rows lead to is reachable.
pub proof fn lemma_column_state_reachable(rows: Seq<Seq<Seq<char>>>, j: int)
    ensures
        reachable(column_state(rows, j)),
    decreases rows.len(),
{
    if rows.len() > 0 {
        lemma_column_state_reachable(rows.drop_last(), j);
        lemma_observe_widens(column_state(rows.drop_last(), j), rows.last()[j]);
    }
}

impl ColumnState {
    pub fn new() -> (r: ColumnState)
        ensures
            r == initial_state(),
    {
        ColumnState {
            numeric: InferredType::Integer,
            all_boolean: true,
            all_date: true,
            seen_value: false,
            saw_empty: false,
        }
    }

    /// Reads one field.
    pub fn observe(&mut self, v: &Vec<char>)
        ensures
            *final(self) == observe(*old(self), v@),
    {
        if v.len() == 0 {
            self.saw_empty = true;
            return;
        }
        self.numeric = match self.numeric {
            InferredType::Integer => {
                if is_integer_text(v) {
                    InferredType::Integer
                } else if is_float_text(v) {
                    InferredType::Float
                } else {
                    InferredType::Text
                }
            },
            InferredType::Float => {
                if is_integer_text(v) || is_float_text(v) {
                    InferredType::Float
                } else {
                    InferredType::Text
                }
            },
            _ => InferredType::Text,
        };
        if self.all_boolean {
            self.all_boolean = is_boolean_text(v);
        }
        if self.all_date {
            self.all_date = is_date_text(v);
        }
        self.seen_value = true;
    }

    /// The type the column has come to.
    pub fn resolve(&self) -> (r: InferredType)
        ensures
            r == resolve(*self),
    {
        if !self.seen_value {
            InferredType::Integer
        } else if self.all_boolean {
            InferredType::Boolean
        } else if self.all_date {
            InferredType::Date
        } else {
            self.numeric
        }
    }
}

/// The states of `n` columns after reading all rows.
pub fn scan_columns(n: usize, rows: &Vec<Vec<Vec<char>>>) -> (states: Vec<ColumnState>)
    requires
        rows_have_width(rows.deep_view(), n as int),
    ensures
        states.len() == n,
        forall|j: int| 0 <= j < n ==> states@[j] == column_state(rows.deep_view(), j),
{
    let ghost all = rows.deep_view();
    let mut states: Vec<ColumnState> = Vec::new();
    let mut j: usize = 0;
    while j < n
        invariant
            j <= n,
            states.len() == j,
            forall|k: int| 0 <= k < j ==> states@[k] == initial_state(),
        decreases n - j,
    {
        states.push(ColumnState::new());
        j = j + 1;
    }
    let mut i: usize = 0;
    while i < rows.len()
        invariant
            i <= rows.len(),
            all == rows.deep_view(),
            rows_have_width(all, n as int),
            states.len() == n,
            forall|k: int| 0 <= k < n ==> states@[k] == column_state(all.take(i as int), k),
        decreases rows.len() - i,
    {
        let row = &rows[i];
        assert(all[i as int] == row.deep_view());
        assert(all.take(i + 1).drop_last() =~= all.take(i as int));
        let mut j: usize = 0;
        while j < n
            invariant
                i < rows.len(),
                j <= n,
                all == rows.deep_view(),
                row == &rows@[i as int],
                all[i as int] == row.deep_view(),
                all.take(i + 1).drop_last() == all.take(i as int),
                rows_have_width(all, n as int),
                states.len() == n,
                forall|k: int| 0 <= k < j ==> states@[k] == column_state(all.take(i + 1), k),
                forall|k: int| j <= k < n ==> states@[k] == column_state(all.take(i as int), k),
            decreases n - j,
        {
            assert(row.deep_view().len() == n);
            proof {
                lemma_chars_deep_view(&row@[j as int]);
            }
            assert(all.take(i + 1).last() == all[i as int]);
            let mut st = states[j];
            st.observe(&row[j]);
            states.set(j, st);
            j = j + 1;
        }
        i = i + 1;
    }
    assert(all.take(i as int) =~= all);
    states
}

} // verus!

verus! {

/// One column of the inferred schema.
#[derive(Clone, Debug)]
pub struct ColumnSchema {
    pub name: String,
    pub column_type: InferredType,
    pub nullable: bool,
}

impl View for ColumnSchema {
    type V = (Seq<char>, InferredType, bool);

    open spec fn view(&self) -> (Seq<char>, InferredType, bool) {
        (self.name@, self.column_type, self.nullable)
    }
}

/// The inferred schema: one column per header name, in header order.
#[derive(Clone, Debug)]
pub struct TableSchema {
    pub columns: Vec<ColumnSchema>,
}

impl View for TableSchema {
    type V = Seq<(Seq<char>, InferredType, bool)>;

    open spec fn view(&self) -> Seq<(Seq<char>, InferredType, bool)> {
        self.columns@.map_values(|c: ColumnSchema| c@)
    }
}

/// Infers each column's type and nullability from the data rows.
pub fn infer_schema(header: &Vec<String>, records: &Vec<Vec<Vec<char>>>) -> (r: TableSchema)
    requires
        rows_have_width(records.deep_view(), header.len() as int),
    ensures
        r@ == schema_of(header@.map_values(|s: String| s@), records.deep_view()),
{
    let ghost names = header@.map_values(|s: String| s@);
    let ghost target = schema_of(names, records.deep_view());
    let states = scan_columns(header.len(), records);
    let mut columns: Vec<ColumnSchema> = Vec::new();
    let mut j: usize = 0;
    while j < header.len()
        invariant
            j <= header.len(),
            states.len() == header.len(),
            names == header@.map_values(|s: String| s@),
            target == schema_of(names, records.deep_view()),
            forall|k: int| 0 <= k < header.len() ==> states@[k] == column_state(records.deep_view(), k),
            columns.len() == j,
            forall|k: int| 0 <= k < j ==> (#[trigger] columns@[k])@ == target[k],
        decreases header.len() - j,
    {
        let st = states[j];
        let c = ColumnSchema { name: header[j].clone(), column_type: st.resolve(), nullable: st.saw_empty };
        assert(c@ == target[j as int]);
        columns.push(c);
        j = j + 1;
    }
    let r = TableSchema { columns };
    assert(r@ =~= target);
    r
}

} // verus!
