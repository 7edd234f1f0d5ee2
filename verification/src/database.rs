//! Database upkeep: where the database lies, how it is backed up, and in
//! which order a migration run does its work.
//!
//! Opening connections, copying files and applying migrations is the
//! caller's. The functions here say what to do next, given what the last
//! thing done came to.

use crate::clock::{utc_now, FILE_STAMP};
use crate::models::{text_view, views};
use vstd::prelude::*;
use vstd::string::*;

verus! {

pub const DATABASE_URL_MISSING: &'static str = "DATABASE_URL must be set";

pub const NOTHING_TO_BACK_UP: &'static str = "数据库文件不存在，跳过备份";

pub const DEFAULT_STEM: &'static str = "database";

pub const BACKUP_INFIX: &'static str = ".backup.";

pub const BACKUP_SUFFIX: &'static str = ".sqlite3";

pub const IO_ERROR: &'static str = "IO错误: ";

pub const DIESEL_ERROR: &'static str = "数据库错误: ";

pub const MIGRATION_ERROR: &'static str = "迁移错误: ";

pub const ENVIRONMENT_ERROR: &'static str = "环境变量错误: ";

/// What can go wrong with the database; each with the words of what failed.
#[derive(Clone, Debug, PartialEq, Eq)]
pub enum DatabaseError {
    /// A file could not be read or written.
    IoError(String),
    /// The database engine refused.
    DieselError(String),
    /// A migration could not be applied, or the applied ones not be listed.
    MigrationError(String),
    /// A setting is missing from the environment.
    EnvironmentError(String),
}

pub enum DatabaseErrorView {
    IoError(Seq<char>),
    DieselError(Seq<char>),
    MigrationError(Seq<char>),
    EnvironmentError(Seq<char>),
}

impl View for DatabaseError {
    type V = DatabaseErrorView;

    open spec fn view(&self) -> DatabaseErrorView {
        match self {
            DatabaseError::IoError(e) => DatabaseErrorView::IoError(e@),
            DatabaseError::DieselError(e) => DatabaseErrorView::DieselError(e@),
            DatabaseError::MigrationError(e) => DatabaseErrorView::MigrationError(e@),
            DatabaseError::EnvironmentError(e) => DatabaseErrorView::EnvironmentError(e@),
        }
    }
}

impl DatabaseErrorView {
    /// The error in words: its kind, then what failed.
    pub open spec fn text(self) -> Seq<char> {
        match self {
            DatabaseErrorView::IoError(e) => IO_ERROR@ + e,
            DatabaseErrorView::DieselError(e) => DIESEL_ERROR@ + e,
            DatabaseErrorView::MigrationError(e) => MIGRATION_ERROR@ + e,
            DatabaseErrorView::EnvironmentError(e) => ENVIRONMENT_ERROR@ + e,
        }
    }
}

impl DatabaseError {
    /// Words the error.
    pub fn message(&self) -> (r: String)
        ensures
            r@ == self@.text(),
    {
        let (kind, detail) = match self {
            DatabaseError::IoError(e) => (IO_ERROR, e),
            DatabaseError::DieselError(e) => (DIESEL_ERROR, e),
            DatabaseError::MigrationError(e) => (MIGRATION_ERROR, e),
            DatabaseError::EnvironmentError(e) => (ENVIRONMENT_ERROR, e),
        };
        let mut out = String::from_str(kind);
        out.append(detail.as_str());
        out
    }

    /// A copy of the error.
    pub fn duplicate(&self) -> (r: DatabaseError)
        ensures
            r@ == self@,
    {
        match self {
            DatabaseError::IoError(e) => DatabaseError::IoError(e.clone()),
            DatabaseError::DieselError(e) => DatabaseError::DieselError(e.clone()),
            DatabaseError::MigrationError(e) => DatabaseError::MigrationError(e.clone()),
            DatabaseError::EnvironmentError(e) => DatabaseError::EnvironmentError(e.clone()),
        }
    }
}

/// The view of an outcome that carries nothing on success.
pub open spec fn unit_view(r: Result<(), DatabaseError>) -> Result<(), DatabaseErrorView> {
    match r {
        Ok(_) => Ok(()),
        Err(e) => Err(e@),
    }
}

/// The view of an outcome that carries text on success.
pub open spec fn text_result_view(r: Result<String, DatabaseError>) -> Result<
    Seq<char>,
    DatabaseErrorView,
> {
    match r {
        Ok(s) => Ok(s@),
        Err(e) => Err(e@),
    }
}

/// The view of an outcome that carries a list of names on success.
pub open spec fn list_view(r: Result<Vec<String>, DatabaseError>) -> Result<
    Seq<Seq<char>>,
    DatabaseErrorView,
> {
    match r {
        Ok(names) => Ok(views(names@)),
        Err(e) => Err(e@),
    }
}

/// Where the database lies: the value of the setting, which must be there.
pub fn establish_connection(database_url: Option<String>) -> (r: Result<String, DatabaseError>)
    ensures
        text_result_view(r) == match text_view(database_url) {
            Some(url) => Ok::<Seq<char>, DatabaseErrorView>(url),
            None => Err(DatabaseErrorView::EnvironmentError(DATABASE_URL_MISSING@)),
        },
{
    match database_url {
        Some(url) => Ok(url),
        None => Err(DatabaseError::EnvironmentError(String::from_str(DATABASE_URL_MISSING))),
    }
}

/// What a backup has to do.
#[derive(Clone, Debug, PartialEq, Eq)]
pub enum Backup {
    /// There is no database file yet; this is what to report.
    Skip { message: String },
    /// Copy the database file to a file of this name beside it.
    Copy { file_name: String },
}

pub enum BackupView {
    Skip { message: Seq<char> },
    Copy { file_name: Seq<char> },
}

impl View for Backup {
    type V = BackupView;

    open spec fn view(&self) -> BackupView {
        match self {
            Backup::Skip { message } => BackupView::Skip { message: message@ },
            Backup::Copy { file_name } => BackupView::Copy { file_name: file_name@ },
        }
    }
}

/// The name of the backup made at `stamp` of a database file whose name,
/// less its extension, is `stem`; a file without such a name is backed up
/// under a default name.
pub open spec fn backup_name(stem: Option<Seq<char>>, stamp: Seq<char>) -> Seq<char> {
    (match stem {
        Some(s) => s,
        None => DEFAULT_STEM@,
    }) + BACKUP_INFIX@ + stamp + BACKUP_SUFFIX@
}

/// What a backup at `stamp` has to do: nothing where no database file
/// exists, otherwise a copy under the backup's name.
pub open spec fn backup_plan(exists: bool, stem: Option<Seq<char>>, stamp: Seq<char>) -> BackupView {
    if exists {
        BackupView::Copy { file_name: backup_name(stem, stamp) }
    } else {
        BackupView::Skip { message: NOTHING_TO_BACK_UP@ }
    }
}

/// Plans a backup made at `stamp`.
pub fn backup_database_at(exists: bool, stem: &Option<String>, stamp: &str) -> (r: Backup)
    ensures
        r@ == backup_plan(exists, text_view(*stem), stamp@),
{
    if !exists {
        return Backup::Skip { message: String::from_str(NOTHING_TO_BACK_UP) };
    }
    let mut name = match stem {
        Some(s) => s.clone(),
        None => String::from_str(DEFAULT_STEM),
    };
    name.append(BACKUP_INFIX);
    name.append(stamp);
    name.append(BACKUP_SUFFIX);
    Backup::Copy { file_name: name }
}

/// Plans a backup named after the current time.
pub fn backup_database(exists: bool, stem: &Option<String>) -> (r: Backup)
    ensures
        exists|stamp: Seq<char>| r@ == #[trigger] backup_plan(exists, text_view(*stem), stamp),
{
    let stamp = utc_now(FILE_STAMP);
    backup_database_at(exists, stem, stamp.as_str())
}

/// What the last thing done in a run came to.
#[derive(Debug, PartialEq, Eq)]
pub enum Progress {
    /// Nothing has been done yet.
    Begin,
    /// The backup ended: with what was done, or with the reason it failed.
    BackedUp(Result<String, DatabaseError>),
    /// The connection was opened, or could not be.
    Connected(Result<(), DatabaseError>),
    /// The pending migrations were applied, or one could not be.
    Migrated(Result<(), String>),
    /// The applied migrations were listed, or could not be.
    Listed(Result<Vec<String>, String>),
}

pub enum ProgressView {
    Begin,
    BackedUp(Result<Seq<char>, DatabaseErrorView>),
    Connected(Result<(), DatabaseErrorView>),
    Migrated(Result<(), Seq<char>>),
    Listed(Result<Seq<Seq<char>>, Seq<char>>),
}

impl View for Progress {
    type V = ProgressView;

    open spec fn view(&self) -> ProgressView {
        match self {
            Progress::Begin => ProgressView::Begin,
            Progress::BackedUp(r) => ProgressView::BackedUp(text_result_view(*r)),
            Progress::Connected(r) => ProgressView::Connected(unit_view(*r)),
            Progress::Migrated(r) => ProgressView::Migrated(
                match r {
                    Ok(_) => Ok(()),
                    Err(e) => Err(e@),
                },
            ),
            Progress::Listed(r) => ProgressView::Listed(
                match r {
                    Ok(names) => Ok(views(names@)),
                    Err(e) => Err(e@),
                },
            ),
        }
    }
}

/// What a migration run does next.
#[derive(Debug, PartialEq, Eq)]
pub enum Migration {
    /// Back the database up, then report [`Progress::BackedUp`].
    BackUp,
    /// Open the connection, then report [`Progress::Connected`].
    Connect,
    /// Apply the pending migrations, then report [`Progress::Migrated`].
    RunPending,
    /// The run is over.
    Done(Result<(), DatabaseError>),
}

pub enum MigrationView {
    BackUp,
    Connect,
    RunPending,
    Done(Result<(), DatabaseErrorView>),
}

impl View for Migration {
    type V = MigrationView;

    open spec fn view(&self) -> MigrationView {
        match self {
            Migration::BackUp => MigrationView::BackUp,
            Migration::Connect => MigrationView::Connect,
            Migration::RunPending => MigrationView::RunPending,
            Migration::Done(r) => MigrationView::Done(unit_view(*r)),
        }
    }
}

/// What a status query does next.
#[derive(Debug, PartialEq, Eq)]
pub enum StatusQuery {
    /// Open the connection, then report [`Progress::Connected`].
    Connect,
    /// List the applied migrations, then report [`Progress::Listed`].
    ListApplied,
    /// The query is over: the versions of the applied migrations, or why
    /// they are not known.
    Done(Result<Vec<String>, DatabaseError>),
}

pub enum StatusQueryView {
    Connect,
    ListApplied,
    Done(Result<Seq<Seq<char>>, DatabaseErrorView>),
}

impl View for StatusQuery {
    type V = StatusQueryView;

    open spec fn view(&self) -> StatusQueryView {
        match self {
            StatusQuery::Connect => StatusQueryView::Connect,
            StatusQuery::ListApplied => StatusQueryView::ListApplied,
            StatusQuery::Done(r) => StatusQueryView::Done(list_view(*r)),
        }
    }
}

/// The order of a migration run without backup: connect, apply, done. A
/// connection that cannot be opened ends the run with its error; a
/// migration that cannot be applied ends it with a migration error.
pub open spec fn migration_step(progress: ProgressView) -> MigrationView {
    match progress {
        ProgressView::Begin => MigrationView::Connect,
        ProgressView::BackedUp(_) => MigrationView::Connect,
        ProgressView::Connected(Ok(_)) => MigrationView::RunPending,
        ProgressView::Connected(Err(e)) => MigrationView::Done(Err(e)),
        ProgressView::Migrated(Ok(_)) => MigrationView::Done(Ok(())),
        ProgressView::Migrated(Err(e)) => MigrationView::Done(
            Err(DatabaseErrorView::MigrationError(e)),
        ),
        ProgressView::Listed(_) => MigrationView::Done(Ok(())),
    }
}

/// The order of a migration run with backup: back up first, then as
/// without. A backup that fails does not stop the run.
pub open spec fn backed_up_migration_step(progress: ProgressView) -> MigrationView {
    match progress {
        ProgressView::Begin => MigrationView::BackUp,
        _ => migration_step(progress),
    }
}

/// The order of a status query: connect, list, done.
pub open spec fn status_step(progress: ProgressView) -> StatusQueryView {
    match progress {
        ProgressView::Connected(Ok(_)) => StatusQueryView::ListApplied,
        ProgressView::Connected(Err(e)) => StatusQueryView::Done(Err(e)),
        ProgressView::Listed(Ok(names)) => StatusQueryView::Done(Ok(names)),
        ProgressView::Listed(Err(e)) => StatusQueryView::Done(
            Err(DatabaseErrorView::MigrationError(e)),
        ),
        _ => StatusQueryView::Connect,
    }
}

/// A copy of a list of names.
fn copy_names(names: &Vec<String>) -> (r: Vec<String>)
    ensures
        views(r@) == views(names@),
{
    let mut out: Vec<String> = Vec::new();
    let mut i: usize = 0;
    while i < names.len()
        invariant
            i <= names.len(),
            views(out@) == views(names@).take(i as int),
        decreases names.len() - i,
    {
        let name = names[i].clone();
        proof {
            crate::models::lemma_views_push(out@, name);
            assert(views(names@).take(i + 1) == views(names@).take(i as int).push(name@));
        }
        out.push(name);
        i += 1;
    }
    assert(views(names@).take(i as int) == views(names@));
    out
}

/// Tells what a migration run does next.
pub fn run_migrations(progress: &Progress) -> (next: Migration)
    ensures
        next@ == migration_step(progress@),
{
    match progress {
        Progress::Begin => Migration::Connect,
        Progress::BackedUp(_) => Migration::Connect,
        Progress::Connected(Ok(_)) => Migration::RunPending,
        Progress::Connected(Err(e)) => Migration::Done(Err(e.duplicate())),
        Progress::Migrated(Ok(_)) => Migration::Done(Ok(())),
        Progress::Migrated(Err(e)) => Migration::Done(Err(DatabaseError::MigrationError(e.clone()))),
        Progress::Listed(_) => Migration::Done(Ok(())),
    }
}

/// Tells what a migration run that backs the database up first does next.
pub fn run_migrations_with_backup(progress: &Progress) -> (next: Migration)
    ensures
        next@ == backed_up_migration_step(progress@),
{
    match progress {
        Progress::Begin => Migration::BackUp,
        _ => run_migrations(progress),
    }
}

/// Tells what a query of the applied migrations does next.
pub fn get_migration_status(progress: &Progress) -> (next: StatusQuery)
    ensures
        next@ == status_step(progress@),
{
    match progress {
        Progress::Connected(Ok(_)) => StatusQuery::ListApplied,
        Progress::Connected(Err(e)) => StatusQuery::Done(Err(e.duplicate())),
        Progress::Listed(Ok(names)) => StatusQuery::Done(Ok(copy_names(names))),
        Progress::Listed(Err(e)) => StatusQuery::Done(
            Err(DatabaseError::MigrationError(e.clone())),
        ),
        _ => StatusQuery::Connect,
    }
}

} // verus!
