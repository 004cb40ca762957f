use vstd::prelude::*;
use crate::error::CsvError;

verus! {

/// Where the scanner stands inside the current field.
#[derive(Clone, Copy, Debug, PartialEq, Eq, Structural)]
pub enum FieldMode {
    /// Nothing of the field has been read yet.
    FieldStart,
    /// Inside a field that did not open with a quote.
    Unquoted,
    /// Inside a quoted section.
    Quoted,
    /// Just read a quote inside a quoted section: either it closes the
    /// section or, doubled, stands for a literal quote.
    QuoteSeen,
}

/// The scanner's state after a prefix of the text: the finished rows, the
/// fields of the current row, and the current field.
pub struct ScanState {
    pub rows: Seq<Seq<Seq<char>>>,
    pub row: Seq<Seq<char>>,
    pub field: Seq<char>,
    pub mode: FieldMode,
}

pub open spec fn initial_scan() -> ScanState {
    ScanState { rows: seq![], row: seq![], field: seq![], mode: FieldMode::FieldStart }
}

pub open spec fn push_char(st: ScanState, c: char, mode: FieldMode) -> ScanState {
    ScanState { field: st.field.push(c), mode: mode, ..st }
}

pub open spec fn end_field(st: ScanState) -> ScanState {
    ScanState { rows: st.rows, row: st.row.push(st.field), field: seq![], mode: FieldMode::FieldStart }
}

/// Closes the current row. A line with nothing on it is skipped.
pub open spec fn end_row(st: ScanState) -> ScanState {
    if st.mode == FieldMode::FieldStart && st.row.len() == 0 {
        st
    } else {
        ScanState {
            rows: st.rows.push(st.row.push(st.field)),
            row: seq![],
            field: seq![],
            mode: FieldMode::FieldStart,
        }
    }
}

/// One character of input. Commas separate fields and newlines separate rows,
/// except inside a quoted section; a doubled quote inside a quoted section is a
/// literal quote; a carriage return outside quotes is dropped.
pub open spec fn scan_step(st: ScanState, c: char) -> ScanState {
    match st.mode {
        FieldMode::FieldStart => {
            if c == '"' {
                ScanState { mode: FieldMode::Quoted, ..st }
            } else if c == ',' {
                end_field(st)
            } else if c == '\n' {
                end_row(st)
            } else if c == '\r' {
                st
            } else {
                push_char(st, c, FieldMode::Unquoted)
            }
        },
        FieldMode::Unquoted => {
            if c == ',' {
                end_field(st)
            } else if c == '\n' {
                end_row(st)
            } else if c == '\r' {
                st
            } else {
                push_char(st, c, FieldMode::Unquoted)
            }
        },
        FieldMode::Quoted => {
            if c == '"' {
                ScanState { mode: FieldMode::QuoteSeen, ..st }
            } else {
                push_char(st, c, FieldMode::Quoted)
            }
        },
        FieldMode::QuoteSeen => {
            if c == '"' {
                push_char(st, c, FieldMode::Quoted)
            } else if c == ',' {
                end_field(st)
            } else if c == '\n' {
                end_row(st)
            } else if c == '\r' {
                st
            } else {
                push_char(st, c, FieldMode::Unquoted)
            }
        },
    }
}

/// The scanner's state after reading all of `s`.
pub open spec fn scan(s: Seq<char>) -> ScanState
    decreases s.len(),
{
    if s.len() == 0 {
        initial_scan()
    } else {
        scan_step(scan(s.drop_last()), s.last())
    }
}

/// The rows of the text, each a sequence of fields. The last row needs no
/// trailing newline; blank lines yield no row.
pub open spec fn parse_rows(s: Seq<char>) -> Seq<Seq<Seq<char>>> {
    end_row(scan(s)).rows
}

/// A vector of characters views the same with or without depth.
pub proof fn lemma_chars_deep_view(v: &Vec<char>)
    ensures
        v.deep_view() == v@,
{
    assert(v.deep_view() =~= v@);
}

/// The executable scanner; its view is the `ScanState` it stands for.
pub struct Scanner {
    rows: Vec<Vec<Vec<char>>>,
    row: Vec<Vec<char>>,
    field: Vec<char>,
    mode: FieldMode,
}

impl View for Scanner {
    type V = ScanState;

    closed spec fn view(&self) -> ScanState {
        ScanState {
            rows: self.rows.deep_view(),
            row: self.row.deep_view(),
            field: self.field@,
            mode: self.mode,
        }
    }
}

impl Scanner {
    pub fn new() -> (r: Scanner)
        ensures
            r@ == initial_scan(),
    {
        let r = Scanner { rows: Vec::new(), row: Vec::new(), field: Vec::new(), mode: FieldMode::FieldStart };
        assert(r@.rows =~= seq![]);
        assert(r@.row =~= seq![]);
        r
    }

    fn push_char(&mut self, c: char, mode: FieldMode)
        ensures
            final(self)@ == push_char(old(self)@, c, mode),
    {
        self.field.push(c);
        self.mode = mode;
    }

    fn end_field(&mut self)
        ensures
            final(self)@ == end_field(old(self)@),
    {
        let mut field: Vec<char> = Vec::new();
        std::mem::swap(&mut field, &mut self.field);
        let ghost old_row = self.row.deep_view();
        proof {
            lemma_chars_deep_view(&field);
        }
        self.row.push(field);
        assert(self.row.deep_view() =~= old_row.push(field@));
        self.mode = FieldMode::FieldStart;
    }

    fn end_row(&mut self)
        ensures
            final(self)@ == end_row(old(self)@),
    {
        if self.mode == FieldMode::FieldStart && self.row.len() == 0 {
            return;
        }
        let mut field: Vec<char> = Vec::new();
        std::mem::swap(&mut field, &mut self.field);
        let mut row: Vec<Vec<char>> = Vec::new();
        std::mem::swap(&mut row, &mut self.row);
        let ghost old_row = row.deep_view();
        proof {
            lemma_chars_deep_view(&field);
        }
        row.push(field);
        assert(row.deep_view() =~= old_row.push(field@));
        let ghost old_rows = self.rows.deep_view();
        let ghost new_row = row.deep_view();
        self.rows.push(row);
        assert(self.rows.deep_view() =~= old_rows.push(new_row));
        assert(self.row.deep_view() =~= seq![]);
        self.mode = FieldMode::FieldStart;
    }

    /// Reads one character.
    pub fn step(&mut self, c: char)
        ensures
            final(self)@ == scan_step(old(self)@, c),
    {
        match self.mode {
            FieldMode::FieldStart => {
                if c == '"' {
                    self.mode = FieldMode::Quoted;
                } else if c == ',' {
                    self.end_field();
                } else if c == '\n' {
                    self.end_row();
                } else if c == '\r' {
                } else {
                    self.push_char(c, FieldMode::Unquoted);
                }
            },
            FieldMode::Unquoted => {
                if c == ',' {
                    self.end_field();
                } else if c == '\n' {
                    self.end_row();
                } else if c == '\r' {
                } else {
                    self.push_char(c, FieldMode::Unquoted);
                }
            },
            FieldMode::Quoted => {
                if c == '"' {
                    self.mode = FieldMode::QuoteSeen;
                } else {
                    self.push_char(c, FieldMode::Quoted);
                }
            },
            FieldMode::QuoteSeen => {
                if c == '"' {
                    self.push_char(c, FieldMode::Quoted);
                } else if c == ',' {
                    self.end_field();
                } else if c == '\n' {
                    self.end_row();
                } else if c == '\r' {
                } else {
                    self.push_char(c, FieldMode::Unquoted);
                }
            },
        }
    }

    /// Closes the last row and hands out all rows.
    pub fn finish(self) -> (rows: Vec<Vec<Vec<char>>>)
        ensures
            rows.deep_view() == end_row(self@).rows,
    {
        let mut s = self;
        s.end_row();
        s.rows
    }
}

/// Splits text into rows of fields.
pub fn split_rows(text: &Vec<char>) -> (rows: Vec<Vec<Vec<char>>>)
    ensures
        rows.deep_view() == parse_rows(text@),
{
    let mut sc = Scanner::new();
    let mut i: usize = 0;
    while i < text.len()
        invariant
            i <= text.len(),
            sc@ == scan(text@.take(i as int)),
        decreases text.len() - i,
    {
        let ghost prev = text@.take(i as int);
        sc.step(text[i]);
        assert(text@.take(i + 1).drop_last() =~= prev);
        i = i + 1;
    }
    assert(text@.take(i as int) =~= text@);
    sc.finish()
}

/// The characters of a string, in order.
pub fn chars_of(text: &str) -> (v: Vec<char>)
    ensures
        v@ == text@,
{
    let mut v: Vec<char> = Vec::new();
    for c in it: text.chars()
        invariant
            v@ == it.seq().take(it.index() as int),
    {
        v.push(c);
    }
    v
}

} // verus!

verus! {

/// Whitespace trimmed from column names: space, tab, line feed, vertical
/// tab, form feed and carriage return.
pub open spec fn is_blank(c: char) -> bool {
    c == ' ' || c == '\t' || c == '\n' || c == '\x0B' || c == '\x0C' || c == '\r'
}

pub open spec fn trim_start(s: Seq<char>) -> Seq<char>
    decreases s.len(),
{
    if s.len() > 0 && is_blank(s[0]) {
        trim_start(s.drop_first())
    } else {
        s
    }
}

pub open spec fn trim_end(s: Seq<char>) -> Seq<char>
    decreases s.len(),
{
    if s.len() > 0 && is_blank(s.last()) {
        trim_end(s.drop_last())
    } else {
        s
    }
}

/// `s` without surrounding whitespace.
pub open spec fn trim(s: Seq<char>) -> Seq<char> {
    trim_end(trim_start(s))
}

fn is_blank_char(c: char) -> (r: bool)
    ensures
        r == is_blank(c),
{
    c == ' ' || c == '\t' || c == '\n' || c == '\x0B' || c == '\x0C' || c == '\r'
}

/// The characters of `s` without surrounding whitespace.
pub fn trim_chars(s: &Vec<char>) -> (r: Vec<char>)
    ensures
        r@ == trim(s@),
{
    let mut lo: usize = 0;
    assert(s@.subrange(0, s@.len() as int) =~= s@);
    while lo < s.len() && is_blank_char(s[lo])
        invariant
            lo <= s.len(),
            trim_start(s@) == trim_start(s@.subrange(lo as int, s@.len() as int)),
        decreases s.len() - lo,
    {
        assert(s@.subrange(lo + 1, s@.len() as int) =~= s@.subrange(lo as int, s@.len() as int).drop_first());
        lo = lo + 1;
    }
    let ghost t = s@.subrange(lo as int, s@.len() as int);
    assert(trim_start(s@) == t);
    let mut hi: usize = s.len();
    while hi > lo && is_blank_char(s[hi - 1])
        invariant
            lo <= hi <= s.len(),
            t == s@.subrange(lo as int, s@.len() as int),
            trim_end(t) == trim_end(s@.subrange(lo as int, hi as int)),
        decreases hi,
    {
        assert(s@.subrange(lo as int, hi - 1) =~= s@.subrange(lo as int, hi as int).drop_last());
        hi = hi - 1;
    }
    let mut r: Vec<char> = Vec::new();
    let mut k: usize = lo;
    while k < hi
        invariant
            lo <= k <= hi <= s.len(),
            r@ == s@.subrange(lo as int, k as int),
        decreases hi - k,
    {
        r.push(s[k]);
        assert(r@ =~= s@.subrange(lo as int, k + 1));
        k = k + 1;
    }
    r
}

/// Relies on `String`'s `FromIterator<&char>`: the string holds the given
/// characters, in order.
#[verifier::external_body]
fn string_from_chars(v: &Vec<char>) -> (s: String)
    ensures
        s@ == v@,
{
    v.iter().collect()
}

/// A header and its data rows, each with as many fields as the header has
/// names.
pub struct CsvTable {
    pub header: Vec<String>,
    pub records: Vec<Vec<Vec<char>>>,
}

/// The views of a sequence of strings.
pub open spec fn string_views(v: Seq<String>) -> Seq<Seq<char>> {
    v.map_values(|s: String| s@)
}

/// The text has a header row and every row has the header's field count.
pub open spec fn rows_well_formed(rows: Seq<Seq<Seq<char>>>) -> bool {
    rows.len() > 0 && forall|i: int| 0 <= i < rows.len() ==> (#[trigger] rows[i]).len() == rows[0].len()
}

/// `e` is the error that the rows call for: no rows at all, or the first row
/// whose field count differs from the header's.
pub open spec fn is_parse_error(rows: Seq<Seq<Seq<char>>>, e: CsvError) -> bool {
    match e {
        CsvError::EmptyInputError => rows.len() == 0,
        CsvError::RowFieldCountMismatch { row, expected, found } => {
            &&& rows.len() > 0
            &&& 1 <= row < rows.len()
            &&& expected == rows[0].len()
            &&& found == rows[row as int].len()
            &&& found != expected
            &&& forall|i: int| 1 <= i < row ==> (#[trigger] rows[i]).len() == rows[0].len()
        },
        CsvError::UnsupportedMediaError => false,
    }
}

/// The header's column names: the first row's fields, trimmed.
pub open spec fn header_names(rows: Seq<Seq<Seq<char>>>) -> Seq<Seq<char>> {
    rows[0].map_values(|f: Seq<char>| trim(f))
}

/// Splits text into a trimmed header and data rows.
pub fn parse_records(text: &str) -> (r: Result<CsvTable, CsvError>)
    ensures
        r is Ok <==> rows_well_formed(parse_rows(text@)),
        r matches Ok(t) ==> string_views(t.header@) == header_names(parse_rows(text@))
            && t.records.deep_view() == parse_rows(text@).drop_first(),
        r matches Err(e) ==> is_parse_error(parse_rows(text@), e),
{
    let chars = chars_of(text);
    let mut rows = split_rows(&chars);
    let ghost all = rows.deep_view();
    if rows.len() == 0 {
        return Err(CsvError::EmptyInputError);
    }
    let width = rows[0].len();
    let mut i: usize = 1;
    while i < rows.len()
        invariant
            1 <= i <= rows.len(),
            all == rows.deep_view(),
            all == parse_rows(text@),
            width == all[0].len(),
            forall|k: int| 0 <= k < i ==> (#[trigger] all[k]).len() == width,
        decreases rows.len() - i,
    {
        assert(all[i as int] == rows@[i as int].deep_view());
        assert(all[i as int].len() == rows@[i as int]@.len());
        if rows[i].len() != width {
            let e = CsvError::RowFieldCountMismatch { row: i, expected: width, found: rows[i].len() };
            return Err(e);
        }
        i = i + 1;
    }
    let first = rows.remove(0);
    assert(rows.deep_view() =~= all.drop_first());
    let mut header: Vec<String> = Vec::new();
    let mut j: usize = 0;
    while j < first.len()
        invariant
            j <= first.len(),
            all.len() > 0,
            first.deep_view() == all[0],
            header.len() == j,
            header_names(all).len() == first.len(),
            string_views(header@) == header_names(all).take(j as int),
        decreases first.len() - j,
    {
        proof {
            lemma_chars_deep_view(&first@[j as int]);
        }
        assert(all[0][j as int] == first@[j as int]@);
        let name = trim_chars(&first[j]);
        let ghost prev = header@;
        let col = string_from_chars(&name);
        header.push(col);
        assert(header@ == prev.push(col));
        assert(header_names(all)[j as int] == trim(all[0][j as int]));
        assert forall|k: int| 0 <= k <= j implies #[trigger] string_views(header@)[k] == header_names(all).take(j + 1)[k] by {
            if k < j {
                assert(string_views(prev)[k] == header_names(all).take(j as int)[k]);
            }
        }
        assert(string_views(header@) =~= header_names(all).take(j + 1));
        j = j + 1;
    }
    assert(header_names(all).take(j as int) =~= header_names(all));
    Ok(CsvTable { header, records: rows })
}

} // verus!
