use csvtosql::error::CsvError;
use csvtosql::session::{Action, AppState, FileInfo, Msg};

fn csv_file() -> FileInfo {
    FileInfo { name: "data.csv".to_string(), mime_type: "text/csv".to_string() }
}

#[test]
fn new_state_has_defaults() {
    let s = AppState::new();
    assert_eq!(s.database, "default_db");
    assert_eq!(s.table, "default_table");
    assert!(s.selected_file.is_none() && s.sql.is_none() && s.error.is_none());
}

#[test]
fn process_without_file_reports_error() {
    let mut s = AppState::new();
    let (redraw, action) = s.update(Msg::ProcessFile);
    assert!(redraw);
    assert!(matches!(action, Action::Nothing));
    assert_eq!(s.error.as_deref(), Some("Please select a file."));
    assert_eq!(
        s.error_banner().as_deref(),
        Some("Failed to process file. Error: Please select a file.")
    );
}

#[test]
fn process_non_csv_reports_error() {
    let mut s = AppState::new();
    s.update(Msg::FileSelected(FileInfo { name: "a.txt".to_string(), mime_type: "text/plain".to_string() }));
    let (_, action) = s.update(Msg::ProcessFile);
    assert!(matches!(action, Action::Nothing));
    assert_eq!(s.error.as_deref(), Some("Selected file is not a csv."));
}

#[test]
fn process_csv_starts_read_and_shows_result() {
    let mut s = AppState::new();
    s.update(Msg::SetDatabase("shop".to_string()));
    s.update(Msg::SetTable("items".to_string()));
    s.update(Msg::FileSelected(csv_file()));
    let (redraw, action) = s.update(Msg::ProcessFile);
    assert!(redraw);
    match action {
        Action::ReadFile { file_name, database, table } => {
            assert_eq!(file_name, "data.csv");
            assert_eq!(database, "shop");
            assert_eq!(table, "items");
        }
        _ => panic!("expected a read"),
    }
    assert!(s.error.is_none());
    let (_, action) = s.update(Msg::FileProcessed("data.csv".to_string(), "CREATE TABLE x.y (a INT NOT NULL);".to_string()));
    assert!(matches!(action, Action::ReleaseReader { ref file_name } if file_name == "data.csv"));
    assert_eq!(s.visible_sql().as_deref(), Some("CREATE TABLE x.y (a INT NOT NULL);"));
    let (redraw, action) = s.update(Msg::CopySqlToClipboard);
    assert!(!redraw);
    assert!(matches!(action, Action::CopyToClipboard { ref text } if text == "CREATE TABLE x.y (a INT NOT NULL);"));
}

#[test]
fn failure_hides_stale_output() {
    let mut s = AppState::new();
    s.update(Msg::FileProcessed("a.csv".to_string(), "CREATE TABLE a.b (c INT NOT NULL);".to_string()));
    s.update(Msg::FileFailed("b.csv".to_string(), CsvError::EmptyInputError));
    assert!(s.sql.is_none());
    assert!(s.visible_sql().is_none());
    assert_eq!(s.error.as_deref(), Some("The input holds no rows."));
    let (_, action) = s.update(Msg::CopySqlToClipboard);
    assert!(matches!(action, Action::Nothing));
}
