use vstd::prelude::*;
use crate::error::{CsvError, check_media_type, error_message, is_csv_media_type};

verus! {

/// What the user picked: the file's name and its media type.
#[derive(Clone, Debug)]
pub struct FileInfo {
    pub name: String,
    pub mime_type: String,
}

/// The events the form reacts to.
pub enum Msg {
    /// The user asked to turn the selected file into a statement.
    ProcessFile,
    /// The user picked a file.
    FileSelected(FileInfo),
    /// Reading and converting the named file gave this statement.
    FileProcessed(String, String),
    /// Reading and converting the named file failed.
    FileFailed(String, CsvError),
    /// The database name field changed.
    SetDatabase(String),
    /// The table name field changed.
    SetTable(String),
    /// The user asked to copy the statement.
    CopySqlToClipboard,
}

/// What the caller must do after an update.
#[derive(Clone, Debug)]
pub enum Action {
    Nothing,
    /// Read the selected file as text, convert it for `database.table`, and
    /// report back with `FileProcessed` or `FileFailed`.
    ReadFile { file_name: String, database: String, table: String },
    /// The read of the named file is over; its reader can be dropped.
    ReleaseReader { file_name: String },
    /// Put this text on the clipboard.
    CopyToClipboard { text: String },
}

/// The form's state.
pub struct AppState {
    pub selected_file: Option<FileInfo>,
    pub sql: Option<String>,
    pub error: Option<String>,
    pub database: String,
    pub table: String,
}

pub open spec fn no_file_message() -> Seq<char> {
    "Please select a file."@
}

pub open spec fn not_csv_message() -> Seq<char> {
    "Selected file is not a csv."@
}

pub open spec fn failure_prefix() -> Seq<char> {
    "Failed to process file. Error: "@
}

impl AppState {
    /// A form with no file, no output, and the default names `default_db`
    /// and `default_table`.
    pub fn new() -> (r: AppState)
        ensures
            r.selected_file is None,
            r.sql is None,
            r.error is None,
            r.database@ == "default_db"@,
            r.table@ == "default_table"@,
    {
        AppState {
            selected_file: None,
            sql: None,
            error: None,
            database: String::from_str("default_db"),
            table: String::from_str("default_table"),
        }
    }

    /// Reacts to one event; returns whether the form must be drawn again and
    /// what the caller must do.
    pub fn update(&mut self, msg: Msg) -> (r: (bool, Action))
        ensures
            match msg {
                Msg::ProcessFile => match old(self).selected_file {
                    None => {
                        &&& r.0
                        &&& r.1 is Nothing
                        &&& final(self).error matches Some(e) && e@ == no_file_message()
                        &&& final(self).selected_file == old(self).selected_file
                        &&& final(self).sql == old(self).sql
                        &&& final(self).database == old(self).database
                        &&& final(self).table == old(self).table
                    },
                    Some(f) => if !is_csv_media_type(f.mime_type@) {
                        &&& r.0
                        &&& r.1 is Nothing
                        &&& final(self).error matches Some(e) && e@ == not_csv_message()
                        &&& final(self).selected_file == old(self).selected_file
                        &&& final(self).sql == old(self).sql
                        &&& final(self).database == old(self).database
                        &&& final(self).table == old(self).table
                    } else {
                        &&& r.0
                        &&& r.1 == (Action::ReadFile {
                            file_name: f.name,
                            database: old(self).database,
                            table: old(self).table,
                        })
                        &&& final(self).error is None
                        &&& final(self).selected_file == old(self).selected_file
                        &&& final(self).sql == old(self).sql
                        &&& final(self).database == old(self).database
                        &&& final(self).table == old(self).table
                    },
                },
                Msg::FileSelected(f) => {
                    &&& r.0
                    &&& r.1 is Nothing
                    &&& final(self).selected_file == Some(f)
                    &&& final(self).sql == old(self).sql
                    &&& final(self).error == old(self).error
                    &&& final(self).database == old(self).database
                    &&& final(self).table == old(self).table
                },
                Msg::FileProcessed(name, sql) => {
                    &&& r.0
                    &&& r.1 == (Action::ReleaseReader { file_name: name })
                    &&& final(self).sql == Some(sql)
                    &&& final(self).selected_file == old(self).selected_file
                    &&& final(self).error == old(self).error
                    &&& final(self).database == old(self).database
                    &&& final(self).table == old(self).table
                },
                Msg::FileFailed(name, e) => {
                    &&& r.0
                    &&& r.1 == (Action::ReleaseReader { file_name: name })
                    &&& final(self).sql is None
                    &&& final(self).error matches Some(m) && m@ == error_message(e)
                    &&& final(self).selected_file == old(self).selected_file
                    &&& final(self).database == old(self).database
                    &&& final(self).table == old(self).table
                },
                Msg::SetDatabase(db) => {
                    &&& !r.0
                    &&& r.1 is Nothing
                    &&& final(self).database == db
                    &&& final(self).selected_file == old(self).selected_file
                    &&& final(self).sql == old(self).sql
                    &&& final(self).error == old(self).error
                    &&& final(self).table == old(self).table
                },
                Msg::SetTable(t) => {
                    &&& !r.0
                    &&& r.1 is Nothing
                    &&& final(self).table == t
                    &&& final(self).selected_file == old(self).selected_file
                    &&& final(self).sql == old(self).sql
                    &&& final(self).error == old(self).error
                    &&& final(self).database == old(self).database
                },
                Msg::CopySqlToClipboard => {
                    &&& !r.0
                    &&& (match (old(self).sql, old(self).error) {
                        (Some(s), None) => r.1 == (Action::CopyToClipboard { text: s }),
                        _ => r.1 is Nothing,
                    })
                    &&& final(self).selected_file == old(self).selected_file
                    &&& final(self).sql == old(self).sql
                    &&& final(self).error == old(self).error
                    &&& final(self).database == old(self).database
                    &&& final(self).table == old(self).table
                },
            },
    {
        match msg {
            Msg::ProcessFile => {
                match &self.selected_file {
                    None => {
                        self.error = Some(String::from_str("Please select a file."));
                        (true, Action::Nothing)
                    },
                    Some(f) => {
                        if check_media_type(f.mime_type.as_str()).is_err() {
                            self.error = Some(String::from_str("Selected file is not a csv."));
                            (true, Action::Nothing)
                        } else {
                            let a = Action::ReadFile {
                                file_name: f.name.clone(),
                                database: self.database.clone(),
                                table: self.table.clone(),
                            };
                            self.error = None;
                            (true, a)
                        }
                    },
                }
            },
            Msg::FileSelected(f) => {
                self.selected_file = Some(f);
                (true, Action::Nothing)
            },
            Msg::FileProcessed(name, sql) => {
                self.sql = Some(sql);
                (true, Action::ReleaseReader { file_name: name })
            },
            Msg::FileFailed(name, e) => {
                self.sql = None;
                self.error = Some(e.message());
                (true, Action::ReleaseReader { file_name: name })
            },
            Msg::SetDatabase(db) => {
                self.database = db;
                (false, Action::Nothing)
            },
            Msg::SetTable(t) => {
                self.table = t;
                (false, Action::Nothing)
            },
            Msg::CopySqlToClipboard => {
                let a = match (&self.sql, &self.error) {
                    (Some(s), None) => Action::CopyToClipboard { text: s.clone() },
                    _ => Action::Nothing,
                };
                (false, a)
            },
        }
    }

    /// The error line to show, if any: the fixed prefix and the error.
    pub fn error_banner(&self) -> (r: Option<String>)
        ensures
            match self.error {
                None => r is None,
                Some(e) => r matches Some(b) && b@ == failure_prefix() + e@,
            },
    {
        match &self.error {
            None => None,
            Some(e) => {
                let mut b = String::from_str("Failed to process file. Error: ");
                b.append(e.as_str());
                Some(b)
            },
        }
    }

    /// The statement to show: only while there is one and no error.
    pub fn visible_sql(&self) -> (r: Option<String>)
        ensures
            match (self.sql, self.error) {
                (Some(s), None) => r == Some(s),
                _ => r is None,
            },
    {
        match (&self.sql, &self.error) {
            (Some(s), None) => Some(s.clone()),
            _ => None,
        }
    }
}

} // verus!
