//! The configuration of a run and the files a run leaves on disk.

use vstd::prelude::*;
use vstd::string::*;
use crate::batches::{total_records_of, MAX_RECORDS};

verus! {

/// The table layout under test.
#[derive(Clone, Copy, Debug, PartialEq, Eq, Structural)]
pub enum SqliteSchemaType {
    /// One wide table, indexed on the tag value.
    SingleTable,
    /// A dictionary of tag values and a data table that refers to it.
    MappingAndDataTables,
    /// One full-text-search virtual table.
    Fts5Table,
}

/// The engine's `synchronous` setting.
#[derive(Clone, Copy, Debug, PartialEq, Eq, Structural)]
pub enum Synchronous {
    Off,
    Normal,
    Full,
    Extra,
}

/// The engine's journal mode.
#[derive(Clone, Copy, Debug, PartialEq, Eq, Structural)]
pub enum JournalMode {
    Delete,
    Truncate,
    Persist,
    Memory,
    Wal,
    Off,
}

/// Everything that is fixed for the duration of a run.
#[derive(Clone, Copy, Debug)]
pub struct RunConfig {
    /// Number of millions of records to insert.
    pub count: usize,
    /// Records per transaction.
    pub batch_size: u16,
    /// Size of the tag pool.
    pub unique_tag_values: u32,
    /// The table layout.
    pub type_schema: SqliteSchemaType,
    /// Durability setting, handed to the engine as it is.
    pub synchronous_flag: Synchronous,
    /// Journal mode, handed to the engine as it is.
    pub journal_mode: JournalMode,
}

/// Record count, in millions, of a run that names none.
pub const DEFAULT_COUNT: usize = 10;

/// Batch size of a run that names none.
pub const DEFAULT_BATCH_SIZE: u16 = 1000;

/// Tag pool size of a run that names none.
pub const DEFAULT_UNIQUE_TAG_VALUES: u32 = 20000;

/// Smallest batch size offered on the command line.
pub const MIN_BATCH_SIZE: u16 = 10;

/// Largest batch size offered on the command line.
pub const MAX_BATCH_SIZE: u16 = 50000;

impl Default for RunConfig {
    /// Ten million records in batches of a thousand, twenty thousand tag
    /// values, the single-table layout, `NORMAL` durability and a
    /// write-ahead log.
    fn default() -> (config: RunConfig)
        ensures
            config == (RunConfig {
                count: DEFAULT_COUNT,
                batch_size: DEFAULT_BATCH_SIZE,
                unique_tag_values: DEFAULT_UNIQUE_TAG_VALUES,
                type_schema: SqliteSchemaType::SingleTable,
                synchronous_flag: Synchronous::Normal,
                journal_mode: JournalMode::Wal,
            }),
            config.valid(),
    {
        RunConfig {
            count: DEFAULT_COUNT,
            batch_size: DEFAULT_BATCH_SIZE,
            unique_tag_values: DEFAULT_UNIQUE_TAG_VALUES,
            type_schema: SqliteSchemaType::SingleTable,
            synchronous_flag: Synchronous::Normal,
            journal_mode: JournalMode::Wal,
        }
    }
}

impl RunConfig {
    /// A run can be planned: batches are not empty, the pool is not empty,
    /// and every offset fits a signed 64-bit integer.
    pub open spec fn valid(&self) -> bool {
        &&& self.batch_size >= 1
        &&& self.unique_tag_values >= 1
        &&& total_records_of(self.count as nat) <= MAX_RECORDS
    }

    /// Total number of records of the run.
    pub open spec fn total(&self) -> nat {
        total_records_of(self.count as nat)
    }

    /// Checks `valid`.
    pub fn is_valid(&self) -> (ok: bool)
        ensures
            ok == self.valid(),
    {
        self.batch_size >= 1 && self.unique_tag_values >= 1 && crate::batches::total_records(
            self.count,
        ).is_some()
    }
}

/// Database file of the single-table layout.
pub const SINGLE_TABLE_DB: &'static str = "single_table.db";

/// Database file of the dictionary layout.
pub const MAPPING_AND_DATA_TABLES_DB: &'static str = "mapping_and_data_tables.db";

/// Database file of the full-text layout.
pub const FTS5_TABLE_DB: &'static str = "fts_5_table.db";

/// Suffix of the engine's shared-memory file.
pub const SHM_SUFFIX: &'static str = "-shm";

/// Suffix of the engine's write-ahead log.
pub const WAL_SUFFIX: &'static str = "-wal";

/// Scheme of a connection URL.
pub const URL_SCHEME: &'static str = "sqlite:";

/// Name of the database file of a layout.
pub open spec fn database_file_of(schema: SqliteSchemaType) -> Seq<char> {
    match schema {
        SqliteSchemaType::SingleTable => SINGLE_TABLE_DB@,
        SqliteSchemaType::MappingAndDataTables => MAPPING_AND_DATA_TABLES_DB@,
        SqliteSchemaType::Fts5Table => FTS5_TABLE_DB@,
    }
}

/// The files a run with this layout leaves behind: the database file, then
/// its shared-memory file, then its write-ahead log.
pub open spec fn run_files_of(schema: SqliteSchemaType) -> Seq<Seq<char>> {
    seq![
        database_file_of(schema),
        database_file_of(schema) + SHM_SUFFIX@,
        database_file_of(schema) + WAL_SUFFIX@,
    ]
}

/// The files to remove before a run: those of every layout, not only of the
/// one selected.
pub open spec fn cleanup_targets_of() -> Seq<Seq<char>> {
    run_files_of(SqliteSchemaType::SingleTable) + run_files_of(
        SqliteSchemaType::MappingAndDataTables,
    ) + run_files_of(SqliteSchemaType::Fts5Table)
}

/// The text of each string of `names`.
pub open spec fn names_view(names: Seq<String>) -> Seq<Seq<char>> {
    Seq::new(names.len(), |i: int| names[i]@)
}

/// Name of the database file of `schema`.
pub fn database_file(schema: SqliteSchemaType) -> (name: &'static str)
    ensures
        name@ == database_file_of(schema),
{
    match schema {
        SqliteSchemaType::SingleTable => SINGLE_TABLE_DB,
        SqliteSchemaType::MappingAndDataTables => MAPPING_AND_DATA_TABLES_DB,
        SqliteSchemaType::Fts5Table => FTS5_TABLE_DB,
    }
}

/// Connection URL of the database of `schema`.
pub fn database_url(schema: SqliteSchemaType) -> (url: String)
    ensures
        url@ == URL_SCHEME@ + database_file_of(schema),
{
    String::from_str(URL_SCHEME).concat(database_file(schema))
}

/// Appends the three files of `schema` to `names`.
fn push_run_files(names: &mut Vec<String>, schema: SqliteSchemaType)
    ensures
        names_view(final(names)@) == names_view(old(names)@) + run_files_of(schema),
{
    let file: &'static str = database_file(schema);
    names.push(String::from_str(file));
    names.push(String::from_str(file).concat(SHM_SUFFIX));
    names.push(String::from_str(file).concat(WAL_SUFFIX));
}

/// The files a run with `schema` leaves behind.
pub fn run_files(schema: SqliteSchemaType) -> (names: Vec<String>)
    ensures
        names_view(names@) == run_files_of(schema),
{
    let mut names: Vec<String> = Vec::new();
    push_run_files(&mut names, schema);
    names
}

/// The files to remove before a run, in the order of removal.
pub fn cleanup_targets() -> (names: Vec<String>)
    ensures
        names_view(names@) == cleanup_targets_of(),
{
    let mut names: Vec<String> = Vec::new();
    push_run_files(&mut names, SqliteSchemaType::SingleTable);
    push_run_files(&mut names, SqliteSchemaType::MappingAndDataTables);
    push_run_files(&mut names, SqliteSchemaType::Fts5Table);
    names
}

/// Cleanup leaves no layout out: whichever layout a previous run used, its
/// database file and both sidecar files are among the files removed.
pub proof fn lemma_cleanup_covers_every_layout(schema: SqliteSchemaType, i: int)
    requires
        0 <= i < 3,
    ensures
        run_files_of(schema).len() == 3,
        cleanup_targets_of().len() == 9,
        cleanup_targets_of().contains(run_files_of(schema)[i]),
{
    let offset: int = match schema {
        SqliteSchemaType::SingleTable => 0,
        SqliteSchemaType::MappingAndDataTables => 3,
        SqliteSchemaType::Fts5Table => 6,
    };
    assert(cleanup_targets_of()[offset + i] == run_files_of(schema)[i]);
}

} // verus!
