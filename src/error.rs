use vstd::prelude::*;

verus! {

/// Why no statement could be produced.
#[derive(Clone, Copy, Debug, PartialEq, Eq, Structural)]
pub enum CsvError {
    /// The text holds no row at all, not even a header.
    EmptyInputError,
    /// Data row `row` (the header is row 0) has `found` fields where the
    /// header has `expected`.
    RowFieldCountMismatch { row: usize, expected: usize, found: usize },
    /// The presented input is not delimited text.
    UnsupportedMediaError,
}

/// The only media type taken as delimited text.
pub open spec fn is_csv_media_type(mime: Seq<char>) -> bool {
    mime == seq!['t', 'e', 'x', 't', '/', 'c', 's', 'v']
}

/// Accepts the media type `text/csv` and refuses every other.
pub fn check_media_type(mime: &str) -> (r: Result<(), CsvError>)
    ensures
        r is Ok <==> is_csv_media_type(mime@),
        r is Err ==> r == Err::<(), CsvError>(CsvError::UnsupportedMediaError),
{
    let expected: [char; 8] = ['t', 'e', 'x', 't', '/', 'c', 's', 'v'];
    assert(expected@ =~= seq!['t', 'e', 'x', 't', '/', 'c', 's', 'v']);
    let n = mime.unicode_len();
    if n != 8 {
        return Err(CsvError::UnsupportedMediaError);
    }
    let mut i: usize = 0;
    while i < 8
        invariant
            n == 8,
            mime@.len() == 8,
            expected@ == seq!['t', 'e', 'x', 't', '/', 'c', 's', 'v'],
            i <= 8,
            forall|j: int| 0 <= j < i ==> mime@[j] == expected@[j],
        decreases 8 - i,
    {
        if mime.get_char(i) != expected[i] {
            assert(mime@[i as int] != expected@[i as int]);
            return Err(CsvError::UnsupportedMediaError);
        }
        i = i + 1;
    }
    assert(mime@ =~= expected@);
    Ok(())
}

/// The sentence shown for each error.
pub open spec fn error_message(e: CsvError) -> Seq<char> {
    match e {
        CsvError::EmptyInputError => "The input holds no rows."@,
        CsvError::RowFieldCountMismatch { .. } => "A row's field count differs from the header's."@,
        CsvError::UnsupportedMediaError => "Selected file is not a csv."@,
    }
}

impl CsvError {
    /// A sentence that tells a person what went wrong.
    pub fn message(&self) -> (r: String)
        ensures
            r@ == error_message(*self),
    {
        let s = match self {
            CsvError::EmptyInputError => "The input holds no rows.",
            CsvError::RowFieldCountMismatch { .. } => "A row's field count differs from the header's.",
            CsvError::UnsupportedMediaError => "Selected file is not a csv.",
        };
        String::from_str(s)
    }
}

} // verus!
