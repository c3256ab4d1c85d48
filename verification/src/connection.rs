//! The options a run connects with: the layout's database file, created
//! where it is missing, with the run's journal mode and durability.

use vstd::prelude::*;
use sqlx::sqlite::{SqliteConnectOptions, SqliteJournalMode, SqliteSynchronous};
use crate::config::{
    database_file_of, database_url, JournalMode, RunConfig, SqliteSchemaType, Synchronous,
    URL_SCHEME,
};
use crate::errors::AppError;

verus! {

/// `sqlx::sqlite::SqliteConnectOptions`, carried as an opaque value; what
/// the contracts say of it goes through the three functions below.
#[verifier::external_type_specification]
#[verifier::external_body]
pub struct ExSqliteConnectOptions(SqliteConnectOptions);

/// `sqlx::sqlite::SqliteJournalMode`, an enum without fields, with its
/// variants.
#[verifier::external_type_specification]
pub struct ExSqliteJournalMode(SqliteJournalMode);

/// `sqlx::sqlite::SqliteSynchronous`, an enum without fields, with its
/// variants.
#[verifier::external_type_specification]
pub struct ExSqliteSynchronous(SqliteSynchronous);

/// The pragmas that connecting with `options` sets, by name.
pub uninterp spec fn option_pragmas(options: SqliteConnectOptions) -> Map<
    Seq<char>,
    Option<Seq<char>>,
>;

/// Whether connecting with `options` creates the database file where it is
/// missing.
pub uninterp spec fn option_creates_file(options: SqliteConnectOptions) -> bool;

/// The name of the database file that `options` open.
pub uninterp spec fn option_filename(options: SqliteConnectOptions) -> Seq<char>;

/// Whether `c` is a letter, a digit, `_` or `.`.
pub open spec fn is_file_name_char(c: char) -> bool {
    ('a' <= c && c <= 'z') || ('A' <= c && c <= 'Z') || ('0' <= c && c <= '9') || c == '_' || c
        == '.'
}

/// Whether `url` is `sqlite:` followed by a file name made of letters,
/// digits, `_` and `.` alone: a URL without parameters, escapes or a path.
pub open spec fn is_plain_file_url(url: Seq<char>) -> bool {
    &&& url.len() > 7
    &&& url.take(7) == URL_SCHEME@
    &&& forall|i: int| 7 <= i < url.len() ==> is_file_name_char(#[trigger] url[i])
}

/// The value of the `journal_mode` pragma.
pub open spec fn journal_mode_text(mode: SqliteJournalMode) -> Seq<char> {
    match mode {
        SqliteJournalMode::Delete => "DELETE"@,
        SqliteJournalMode::Truncate => "TRUNCATE"@,
        SqliteJournalMode::Persist => "PERSIST"@,
        SqliteJournalMode::Memory => "MEMORY"@,
        SqliteJournalMode::Wal => "WAL"@,
        SqliteJournalMode::Off => "OFF"@,
    }
}

/// The value of the `synchronous` pragma.
pub open spec fn synchronous_text(flag: SqliteSynchronous) -> Seq<char> {
    match flag {
        SqliteSynchronous::Off => "OFF"@,
        SqliteSynchronous::Normal => "NORMAL"@,
        SqliteSynchronous::Full => "FULL"@,
        SqliteSynchronous::Extra => "EXTRA"@,
    }
}

/// The client's journal mode for `mode`.
pub open spec fn engine_journal_mode_of(mode: JournalMode) -> SqliteJournalMode {
    match mode {
        JournalMode::Delete => SqliteJournalMode::Delete,
        JournalMode::Truncate => SqliteJournalMode::Truncate,
        JournalMode::Persist => SqliteJournalMode::Persist,
        JournalMode::Memory => SqliteJournalMode::Memory,
        JournalMode::Wal => SqliteJournalMode::Wal,
        JournalMode::Off => SqliteJournalMode::Off,
    }
}

/// The client's durability setting for `flag`.
pub open spec fn engine_synchronous_of(flag: Synchronous) -> SqliteSynchronous {
    match flag {
        Synchronous::Off => SqliteSynchronous::Off,
        Synchronous::Normal => SqliteSynchronous::Normal,
        Synchronous::Full => SqliteSynchronous::Full,
        Synchronous::Extra => SqliteSynchronous::Extra,
    }
}

/// `SqliteConnectOptions::from_str`: parses a connection URL. A URL made of
/// the scheme and a plain file name is accepted, and the options then open
/// the file of that name. Of other URLs nothing is claimed.
#[verifier::external_body]
fn parse_options(url: &str) -> (parsed: Result<SqliteConnectOptions, sqlx::Error>)
    ensures
        is_plain_file_url(url@) ==> parsed is Ok,
        is_plain_file_url(url@) ==> (parsed matches Ok(options) ==> option_filename(options)
            == url@.skip(7)),
{
    <SqliteConnectOptions as std::str::FromStr>::from_str(url)
}

/// `SqliteConnectOptions::journal_mode`: sets the `journal_mode` pragma to
/// the mode's name and leaves everything else as it was.
#[verifier::external_body]
fn with_journal_mode(options: SqliteConnectOptions, mode: SqliteJournalMode) -> (changed:
    SqliteConnectOptions)
    ensures
        option_pragmas(changed) == option_pragmas(options).insert(
            "journal_mode"@,
            Some(journal_mode_text(mode)),
        ),
        option_creates_file(changed) == option_creates_file(options),
        option_filename(changed) == option_filename(options),
{
    options.journal_mode(mode)
}

/// `SqliteConnectOptions::synchronous`: sets the `synchronous` pragma to the
/// setting's name and leaves everything else as it was.
#[verifier::external_body]
fn with_synchronous(options: SqliteConnectOptions, flag: SqliteSynchronous) -> (changed:
    SqliteConnectOptions)
    ensures
        option_pragmas(changed) == option_pragmas(options).insert(
            "synchronous"@,
            Some(synchronous_text(flag)),
        ),
        option_creates_file(changed) == option_creates_file(options),
        option_filename(changed) == option_filename(options),
{
    options.synchronous(flag)
}

/// `SqliteConnectOptions::create_if_missing`: sets whether the file is
/// created where it is missing and leaves the pragmas as they were.
#[verifier::external_body]
fn with_create_if_missing(options: SqliteConnectOptions, create: bool) -> (changed:
    SqliteConnectOptions)
    ensures
        option_creates_file(changed) == create,
        option_pragmas(changed) == option_pragmas(options),
        option_filename(changed) == option_filename(options),
{
    options.create_if_missing(create)
}

/// The client's journal mode for `mode`.
pub fn engine_journal_mode(mode: JournalMode) -> (engine: SqliteJournalMode)
    ensures
        engine == engine_journal_mode_of(mode),
{
    match mode {
        JournalMode::Delete => SqliteJournalMode::Delete,
        JournalMode::Truncate => SqliteJournalMode::Truncate,
        JournalMode::Persist => SqliteJournalMode::Persist,
        JournalMode::Memory => SqliteJournalMode::Memory,
        JournalMode::Wal => SqliteJournalMode::Wal,
        JournalMode::Off => SqliteJournalMode::Off,
    }
}

/// The client's durability setting for `flag`.
pub fn engine_synchronous(flag: Synchronous) -> (engine: SqliteSynchronous)
    ensures
        engine == engine_synchronous_of(flag),
{
    match flag {
        Synchronous::Off => SqliteSynchronous::Off,
        Synchronous::Normal => SqliteSynchronous::Normal,
        Synchronous::Full => SqliteSynchronous::Full,
        Synchronous::Extra => SqliteSynchronous::Extra,
    }
}

/// Whether `options` are those of a run of `config`: the file is created
/// where it is missing, and the journal mode and the durability setting are
/// the configured ones.
pub open spec fn carries_settings(options: SqliteConnectOptions, config: RunConfig) -> bool {
    &&& option_creates_file(options)
    &&& option_pragmas(options).dom().contains("journal_mode"@)
    &&& option_pragmas(options)["journal_mode"@] == Some(
        journal_mode_text(engine_journal_mode_of(config.journal_mode)),
    )
    &&& option_pragmas(options).dom().contains("synchronous"@)
    &&& option_pragmas(options)["synchronous"@] == Some(
        synchronous_text(engine_synchronous_of(config.synchronous_flag)),
    )
}

/// Applies the settings of `config` to `options`: journal mode, then
/// durability, then creation of a missing file.
pub fn apply_settings(options: SqliteConnectOptions, config: &RunConfig) -> (configured:
    SqliteConnectOptions)
    ensures
        carries_settings(configured, *config),
        option_filename(configured) == option_filename(options),
        option_pragmas(configured) == option_pragmas(options).insert(
            "journal_mode"@,
            Some(journal_mode_text(engine_journal_mode_of(config.journal_mode))),
        ).insert(
            "synchronous"@,
            Some(synchronous_text(engine_synchronous_of(config.synchronous_flag))),
        ),
{
    proof {
        reveal_strlit("journal_mode");
        reveal_strlit("synchronous");
        assert("journal_mode"@.len() != "synchronous"@.len());
    }
    let with_mode: SqliteConnectOptions = with_journal_mode(
        options,
        engine_journal_mode(config.journal_mode),
    );
    let with_flag: SqliteConnectOptions = with_synchronous(
        with_mode,
        engine_synchronous(config.synchronous_flag),
    );
    with_create_if_missing(with_flag, true)
}

/// The URL of every layout's database file is the scheme and a plain file
/// name.
pub proof fn lemma_database_urls_are_plain(schema: SqliteSchemaType)
    ensures
        is_plain_file_url(URL_SCHEME@ + database_file_of(schema)),
        (URL_SCHEME@ + database_file_of(schema)).skip(7) == database_file_of(schema),
{
    reveal_strlit("sqlite:");
    reveal_strlit("single_table.db");
    reveal_strlit("mapping_and_data_tables.db");
    reveal_strlit("fts_5_table.db");
    let url: Seq<char> = URL_SCHEME@ + database_file_of(schema);
    assert(url.take(7) =~= URL_SCHEME@);
    assert forall|i: int| 7 <= i < url.len() implies is_file_name_char(#[trigger] url[i]) by {
        assert(url[i] == database_file_of(schema)[i - 7]);
    }
}

/// The options to connect with for a run of `config`: those parsed from the
/// URL of the layout's database file, with the run's settings applied. The
/// client accepts the URL of every layout, so this succeeds.
pub fn connect_options(config: &RunConfig) -> (options: Result<SqliteConnectOptions, AppError>)
    ensures
        options matches Ok(configured) && carries_settings(configured, *config)
            && option_filename(configured) == database_file_of(config.type_schema),
{
    let url: String = database_url(config.type_schema);
    proof {
        lemma_database_urls_are_plain(config.type_schema);
    }
    match parse_options(url.as_str()) {
        Ok(parsed) => Ok(apply_settings(parsed, config)),
        Err(error) => Err(AppError::from(error)),
    }
}

} // verus!
