//! The medium as the storage layer sees it: the requests it makes of the
//! medium, the answers it gets, and a model of what a medium does with
//! each request.
//!
//! Nothing here touches a disk. Whoever drives the library performs each
//! [`Action`] and reports what happened as a [`Reply`]; [`Disk::perform`]
//! says what a medium does when no fault occurs, and [`Disk::answers`] what
//! it may do at all.

use vstd::prelude::*;

verus! {

/// A row of the users database.
#[derive(Clone, Debug, PartialEq, Eq)]
pub struct UserRow {
    pub uuid: String,
    pub device_name: String,
    /// Seconds since the epoch at which the user registered.
    pub created_at: i64,
    /// Seconds since the epoch of the user's latest location, 0 before the
    /// first one.
    pub last_location: i64,
}

/// A row of the users database, as a value of the model.
pub struct UserRowView {
    pub uuid: Seq<char>,
    pub device_name: Seq<char>,
    pub created_at: i64,
    pub last_location: i64,
}

impl View for UserRow {
    type V = UserRowView;

    open spec fn view(&self) -> UserRowView {
        UserRowView {
            uuid: self.uuid@,
            device_name: self.device_name@,
            created_at: self.created_at,
            last_location: self.last_location,
        }
    }
}

/// A row of a location database. The coordinates are bit patterns of
/// 64-bit floating point numbers, each one a pattern under which a database
/// keeps a number; the store carries them and never computes with them.
#[derive(Clone, Copy, Debug, PartialEq, Eq, Structural)]
pub struct LocationRow {
    pub latitude: u64,
    pub longitude: u64,
    /// Milliseconds since the epoch at which the row was written.
    pub gathered_at: i64,
}

/// A value bound to a placeholder of a statement.
#[derive(Clone, Debug, PartialEq, Eq)]
pub enum Value {
    Text(String),
    Integer(i64),
    /// The bit pattern of a 64-bit floating point number that stands for a
    /// number.
    Real(u64),
}

/// A bound value, as a value of the model.
pub enum ValueView {
    Text(Seq<char>),
    Integer(i64),
    Real(u64),
}

impl View for Value {
    type V = ValueView;

    open spec fn view(&self) -> ValueView {
        match self {
            Value::Text(s) => ValueView::Text(s@),
            Value::Integer(i) => ValueView::Integer(*i),
            Value::Real(bits) => ValueView::Real(*bits),
        }
    }
}

/// One request to the medium.
#[derive(Clone, Debug, PartialEq, Eq)]
pub enum Action {
    /// Create the directory at `path` and its parents where they are missing.
    CreateDirs { path: String },
    /// Create or truncate the file at `path` and write `content` to it.
    WriteFile { path: String, content: String },
    /// Create the location database at `path` with its empty table. The
    /// medium answers `Exists`, and changes nothing, where a file is at
    /// `path` already.
    CreateStore { path: String },
    /// Create the users database at `path` with its empty table unless it is
    /// there already.
    CreateRegistry { path: String },
    /// Append a row to the users database at `path`; the row's latest
    /// location is 0.
    InsertUser { path: String, uuid: String, device_name: String, created_at: i64 },
    /// Set the latest location of every row of the users database at `path`
    /// whose identifier is `uuid`.
    SetLastLocation { path: String, uuid: String, at: i64 },
    /// Append a row to the location database at `path`.
    InsertLocation { path: String, row: LocationRow },
    /// Read the identifiers of the users database at `path`, in row order.
    SelectUuids { path: String },
    /// Read the rows of the users database at `path` whose identifier is
    /// `uuid`, in row order.
    SelectUser { path: String, uuid: String },
    /// Read the rows of the location database at `path`, in row order.
    SelectLocations { path: String },
}

/// A request, as a value of the model.
pub enum ActionView {
    CreateDirs { path: Seq<char> },
    WriteFile { path: Seq<char>, content: Seq<char> },
    CreateStore { path: Seq<char> },
    CreateRegistry { path: Seq<char> },
    InsertUser { path: Seq<char>, uuid: Seq<char>, device_name: Seq<char>, created_at: i64 },
    SetLastLocation { path: Seq<char>, uuid: Seq<char>, at: i64 },
    InsertLocation { path: Seq<char>, row: LocationRow },
    SelectUuids { path: Seq<char> },
    SelectUser { path: Seq<char>, uuid: Seq<char> },
    SelectLocations { path: Seq<char> },
}

impl View for Action {
    type V = ActionView;

    open spec fn view(&self) -> ActionView {
        match self {
            Action::CreateDirs { path } => ActionView::CreateDirs { path: path@ },
            Action::WriteFile { path, content } => ActionView::WriteFile {
                path: path@,
                content: content@,
            },
            Action::CreateStore { path } => ActionView::CreateStore { path: path@ },
            Action::CreateRegistry { path } => ActionView::CreateRegistry { path: path@ },
            Action::InsertUser { path, uuid, device_name, created_at } => ActionView::InsertUser {
                path: path@,
                uuid: uuid@,
                device_name: device_name@,
                created_at: *created_at,
            },
            Action::SetLastLocation { path, uuid, at } => ActionView::SetLastLocation {
                path: path@,
                uuid: uuid@,
                at: *at,
            },
            Action::InsertLocation { path, row } => ActionView::InsertLocation {
                path: path@,
                row: *row,
            },
            Action::SelectUuids { path } => ActionView::SelectUuids { path: path@ },
            Action::SelectUser { path, uuid } => ActionView::SelectUser { path: path@, uuid: uuid@ },
            Action::SelectLocations { path } => ActionView::SelectLocations { path: path@ },
        }
    }
}

/// What the medium reports after a request.
#[derive(Clone, Debug, PartialEq, Eq)]
pub enum Reply {
    /// The request was carried out and has nothing to hand back.
    Done,
    /// Nothing is at the path of the request.
    Missing,
    /// Something is at the path of the request already.
    Exists,
    /// The medium is locked by another writer.
    Busy,
    /// The medium failed, or holds at the path something of another kind.
    Fault,
    /// The identifiers read by `SelectUuids`.
    Uuids(Vec<String>),
    /// The rows read by `SelectUser`.
    Users(Vec<UserRow>),
    /// The rows read by `SelectLocations`.
    Locations(Vec<LocationRow>),
}

/// An answer, as a value of the model.
pub enum ReplyView {
    Done,
    Missing,
    Exists,
    Busy,
    Fault,
    Uuids(Seq<Seq<char>>),
    Users(Seq<UserRowView>),
    Locations(Seq<LocationRow>),
}

/// The views of a vector of strings.
pub open spec fn text_views(v: Seq<String>) -> Seq<Seq<char>> {
    v.map_values(|s: String| s@)
}

/// The views of a vector of rows.
pub open spec fn row_views(v: Seq<UserRow>) -> Seq<UserRowView> {
    v.map_values(|r: UserRow| r@)
}

impl View for Reply {
    type V = ReplyView;

    open spec fn view(&self) -> ReplyView {
        match self {
            Reply::Done => ReplyView::Done,
            Reply::Missing => ReplyView::Missing,
            Reply::Exists => ReplyView::Exists,
            Reply::Busy => ReplyView::Busy,
            Reply::Fault => ReplyView::Fault,
            Reply::Uuids(v) => ReplyView::Uuids(text_views(v@)),
            Reply::Users(v) => ReplyView::Users(row_views(v@)),
            Reply::Locations(v) => ReplyView::Locations(v@),
        }
    }
}

/// What a path of the medium holds.
pub enum FileView {
    /// A users database with its rows in the order they were inserted.
    Users(Seq<UserRowView>),
    /// A location database with its rows in the order they were inserted.
    Locations(Seq<LocationRow>),
    /// A plain file.
    Text(Seq<char>),
}

/// The row `row` after the latest location of `uuid` was set to `at`.
pub open spec fn touched_row(row: UserRowView, uuid: Seq<char>, at: i64) -> UserRowView {
    if row.uuid == uuid {
        UserRowView { last_location: at, ..row }
    } else {
        row
    }
}

/// The rows of `rows` with the latest location of `uuid` set to `at`.
pub open spec fn touched(rows: Seq<UserRowView>, uuid: Seq<char>, at: i64) -> Seq<UserRowView> {
    Seq::new(rows.len(), |i: int| touched_row(rows[i], uuid, at))
}

/// The identifiers of `rows`, in order.
pub open spec fn uuids_of(rows: Seq<UserRowView>) -> Seq<Seq<char>> {
    Seq::new(rows.len(), |i: int| rows[i].uuid)
}

/// The test whether a row belongs to `uuid`.
pub open spec fn belongs_to(uuid: Seq<char>) -> spec_fn(UserRowView) -> bool {
    |r: UserRowView| r.uuid == uuid
}

/// The rows of `rows` whose identifier is `uuid`, in order.
pub open spec fn rows_of(rows: Seq<UserRowView>, uuid: Seq<char>) -> Seq<UserRowView> {
    rows.filter(belongs_to(uuid))
}

/// The state of the medium: the directories that exist, and what each path
/// that names a file holds.
pub struct Disk {
    pub dirs: Set<Seq<char>>,
    pub files: Map<Seq<char>, FileView>,
}

impl Disk {
    /// A medium on which nothing has been written.
    pub open spec fn blank() -> Disk {
        Disk { dirs: Set::empty(), files: Map::empty() }
    }

    /// This state with `file` at `path`.
    pub open spec fn with_file(self, path: Seq<char>, file: FileView) -> Disk {
        Disk { files: self.files.insert(path, file), ..self }
    }

    /// What a medium in this state does with `action` when no fault occurs:
    /// the state it is in afterwards, and its answer.
    pub open spec fn perform(self, action: ActionView) -> (Disk, ReplyView) {
        match action {
            ActionView::CreateDirs { path } => (
                Disk { dirs: self.dirs.insert(path), ..self },
                ReplyView::Done,
            ),
            ActionView::WriteFile { path, content } => (
                self.with_file(path, FileView::Text(content)),
                ReplyView::Done,
            ),
            ActionView::CreateStore { path } => if self.files.contains_key(path) {
                (self, ReplyView::Exists)
            } else {
                (self.with_file(path, FileView::Locations(Seq::empty())), ReplyView::Done)
            },
            ActionView::CreateRegistry { path } => if !self.files.contains_key(path) {
                (self.with_file(path, FileView::Users(Seq::empty())), ReplyView::Done)
            } else {
                match self.files[path] {
                    FileView::Users(_) => (self, ReplyView::Done),
                    _ => (self, ReplyView::Fault),
                }
            },
            ActionView::InsertUser { path, uuid, device_name, created_at } => if !self.files.contains_key(
                path,
            ) {
                (self, ReplyView::Missing)
            } else {
                match self.files[path] {
                    FileView::Users(rows) => (
                        self.with_file(
                            path,
                            FileView::Users(
                                rows.push(
                                    UserRowView { uuid, device_name, created_at, last_location: 0 },
                                ),
                            ),
                        ),
                        ReplyView::Done,
                    ),
                    _ => (self, ReplyView::Fault),
                }
            },
            ActionView::SetLastLocation { path, uuid, at } => if !self.files.contains_key(path) {
                (self, ReplyView::Missing)
            } else {
                match self.files[path] {
                    FileView::Users(rows) => (
                        self.with_file(path, FileView::Users(touched(rows, uuid, at))),
                        ReplyView::Done,
                    ),
                    _ => (self, ReplyView::Fault),
                }
            },
            ActionView::InsertLocation { path, row } => if !self.files.contains_key(path) {
                (self, ReplyView::Missing)
            } else {
                match self.files[path] {
                    FileView::Locations(rows) => (
                        self.with_file(path, FileView::Locations(rows.push(row))),
                        ReplyView::Done,
                    ),
                    _ => (self, ReplyView::Fault),
                }
            },
            ActionView::SelectUuids { path } => if !self.files.contains_key(path) {
                (self, ReplyView::Missing)
            } else {
                match self.files[path] {
                    FileView::Users(rows) => (self, ReplyView::Uuids(uuids_of(rows))),
                    _ => (self, ReplyView::Fault),
                }
            },
            ActionView::SelectUser { path, uuid } => if !self.files.contains_key(path) {
                (self, ReplyView::Missing)
            } else {
                match self.files[path] {
                    FileView::Users(rows) => (self, ReplyView::Users(rows_of(rows, uuid))),
                    _ => (self, ReplyView::Fault),
                }
            },
            ActionView::SelectLocations { path } => if !self.files.contains_key(path) {
                (self, ReplyView::Missing)
            } else {
                match self.files[path] {
                    FileView::Locations(rows) => (self, ReplyView::Locations(rows)),
                    _ => (self, ReplyView::Fault),
                }
            },
        }
    }

    /// Whether a medium in this state may answer `action` with `reply` and
    /// be in state `next` afterwards: either no fault occurs, or the request
    /// is turned away as a whole and leaves no trace.
    pub open spec fn answers(self, action: ActionView, next: Disk, reply: ReplyView) -> bool {
        ||| (next, reply) == self.perform(action)
        ||| (next == self && (reply == ReplyView::Busy || reply == ReplyView::Fault))
    }
}

/// The views of a vector of bound values.
pub open spec fn value_views(v: Seq<Value>) -> Seq<ValueView> {
    v.map_values(|value: Value| value@)
}

/// The statement that carries out `action` on a database, with a `?` for
/// each value of the request. The text depends on the kind of the request
/// alone: no label, identifier or coordinate is ever part of it. Requests
/// to the file system have no statement.
pub open spec fn statement_text(action: ActionView) -> Option<Seq<char>> {
    match action {
        ActionView::CreateDirs { .. } => None,
        ActionView::WriteFile { .. } => None,
        ActionView::CreateStore { .. } => Some(
            "CREATE TABLE location (latitude REAL, longitude REAL, gathered_at INTEGER);"@,
        ),
        ActionView::CreateRegistry { .. } => Some(
            "CREATE TABLE IF NOT EXISTS users (uuid TEXT, device_name TEXT, created_at INTEGER, last_location INTEGER);"@,
        ),
        ActionView::InsertUser { .. } => Some(
            "INSERT INTO users (uuid, device_name, created_at, last_location) VALUES (?, ?, ?, 0);"@,
        ),
        ActionView::SetLastLocation { .. } => Some(
            "UPDATE users SET last_location = ? WHERE uuid = ?;"@,
        ),
        ActionView::InsertLocation { .. } => Some(
            "INSERT INTO location (latitude, longitude, gathered_at) VALUES (?, ?, ?);"@,
        ),
        ActionView::SelectUuids { .. } => Some("SELECT uuid FROM users ORDER BY rowid;"@),
        ActionView::SelectUser { .. } => Some(
            "SELECT uuid, device_name, created_at, last_location FROM users WHERE uuid = ? ORDER BY rowid;"@,
        ),
        ActionView::SelectLocations { .. } => Some(
            "SELECT latitude, longitude, gathered_at FROM location ORDER BY rowid;"@,
        ),
    }
}

/// The values of `action`, in the order of the placeholders of its
/// statement.
pub open spec fn bound_values(action: ActionView) -> Seq<ValueView> {
    match action {
        ActionView::InsertUser { uuid, device_name, created_at, .. } => seq![
            ValueView::Text(uuid),
            ValueView::Text(device_name),
            ValueView::Integer(created_at),
        ],
        ActionView::SetLastLocation { uuid, at, .. } => seq![
            ValueView::Integer(at),
            ValueView::Text(uuid),
        ],
        ActionView::InsertLocation { row, .. } => seq![
            ValueView::Real(row.latitude),
            ValueView::Real(row.longitude),
            ValueView::Integer(row.gathered_at),
        ],
        ActionView::SelectUser { uuid, .. } => seq![ValueView::Text(uuid)],
        _ => Seq::empty(),
    }
}

impl Action {
    /// The path of the directory, file or database that the request is
    /// about.
    pub fn path(&self) -> (path: &str)
        ensures
            path@ == match self@ {
                ActionView::CreateDirs { path } => path,
                ActionView::WriteFile { path, .. } => path,
                ActionView::CreateStore { path } => path,
                ActionView::CreateRegistry { path } => path,
                ActionView::InsertUser { path, .. } => path,
                ActionView::SetLastLocation { path, .. } => path,
                ActionView::InsertLocation { path, .. } => path,
                ActionView::SelectUuids { path } => path,
                ActionView::SelectUser { path, .. } => path,
                ActionView::SelectLocations { path } => path,
            },
    {
        match self {
            Action::CreateDirs { path } => path.as_str(),
            Action::WriteFile { path, .. } => path.as_str(),
            Action::CreateStore { path } => path.as_str(),
            Action::CreateRegistry { path } => path.as_str(),
            Action::InsertUser { path, .. } => path.as_str(),
            Action::SetLastLocation { path, .. } => path.as_str(),
            Action::InsertLocation { path, .. } => path.as_str(),
            Action::SelectUuids { path } => path.as_str(),
            Action::SelectUser { path, .. } => path.as_str(),
            Action::SelectLocations { path } => path.as_str(),
        }
    }

    /// The statement to prepare for this request, `None` for a request to
    /// the file system.
    pub fn statement(&self) -> (text: Option<String>)
        ensures
            match text {
                Some(sql) => statement_text(self@) == Some(sql@),
                None => statement_text(self@) is None,
            },
    {
        match self {
            Action::CreateDirs { .. } => None,
            Action::WriteFile { .. } => None,
            Action::CreateStore { .. } => Some(
                String::from_str(
                    "CREATE TABLE location (latitude REAL, longitude REAL, gathered_at INTEGER);",
                ),
            ),
            Action::CreateRegistry { .. } => Some(
                String::from_str(
                    "CREATE TABLE IF NOT EXISTS users (uuid TEXT, device_name TEXT, created_at INTEGER, last_location INTEGER);",
                ),
            ),
            Action::InsertUser { .. } => Some(
                String::from_str(
                    "INSERT INTO users (uuid, device_name, created_at, last_location) VALUES (?, ?, ?, 0);",
                ),
            ),
            Action::SetLastLocation { .. } => Some(
                String::from_str("UPDATE users SET last_location = ? WHERE uuid = ?;"),
            ),
            Action::InsertLocation { .. } => Some(
                String::from_str(
                    "INSERT INTO location (latitude, longitude, gathered_at) VALUES (?, ?, ?);",
                ),
            ),
            Action::SelectUuids { .. } => Some(String::from_str("SELECT uuid FROM users ORDER BY rowid;")),
            Action::SelectUser { .. } => Some(
                String::from_str(
                    "SELECT uuid, device_name, created_at, last_location FROM users WHERE uuid = ? ORDER BY rowid;",
                ),
            ),
            Action::SelectLocations { .. } => Some(
                String::from_str("SELECT latitude, longitude, gathered_at FROM location ORDER BY rowid;"),
            ),
        }
    }

    /// The values to bind to the placeholders of the statement, in their
    /// order.
    pub fn bindings(&self) -> (values: Vec<Value>)
        ensures
            value_views(values@) == bound_values(self@),
    {
        let mut values: Vec<Value> = Vec::new();
        match self {
            Action::InsertUser { uuid, device_name, created_at, .. } => {
                values.push(Value::Text(uuid.clone()));
                values.push(Value::Text(device_name.clone()));
                values.push(Value::Integer(*created_at));
            },
            Action::SetLastLocation { uuid, at, .. } => {
                values.push(Value::Integer(*at));
                values.push(Value::Text(uuid.clone()));
            },
            Action::InsertLocation { row, .. } => {
                values.push(Value::Real(row.latitude));
                values.push(Value::Real(row.longitude));
                values.push(Value::Integer(row.gathered_at));
            },
            Action::SelectUser { uuid, .. } => {
                values.push(Value::Text(uuid.clone()));
            },
            _ => {},
        }
        assert(value_views(values@) =~= bound_values(self@));
        values
    }
}

/// The answer that stands for a failure of the database engine, by the
/// result code it gave, if it gave one: `Busy` for the two codes that report
/// a lock held by another writer, 5 and 6, and `Fault` for everything else.
pub open spec fn reply_for_code(code: Option<i64>) -> ReplyView {
    if code == Some(5i64) || code == Some(6i64) {
        ReplyView::Busy
    } else {
        ReplyView::Fault
    }
}

impl Reply {
    /// The answer to report when the database engine refused a request with
    /// the result code `code`, or with none.
    pub fn from_code(code: Option<i64>) -> (reply: Reply)
        ensures
            reply@ == reply_for_code(code),
    {
        match code {
            Some(5) => Reply::Busy,
            Some(6) => Reply::Busy,
            _ => Reply::Fault,
        }
    }
}

} // verus!
