use sqlite_insert_bench::config::{JournalMode, RunConfig, SqliteSchemaType, Synchronous};
use sqlite_insert_bench::connection::{
    apply_settings, connect_options, engine_journal_mode, engine_synchronous,
};
use sqlx::sqlite::{SqliteConnectOptions, SqliteJournalMode, SqliteSynchronous};
use sqlx::{ConnectOptions, Row};
use std::future::Future;
use std::path::Path;
use std::str::FromStr;

fn block_on<F: Future>(future: F) -> F::Output {
    tokio::runtime::Builder::new_current_thread()
        .enable_all()
        .build()
        .unwrap()
        .block_on(future)
}

fn config(schema: SqliteSchemaType, flag: Synchronous, mode: JournalMode) -> RunConfig {
    RunConfig {
        count: 1,
        batch_size: 1000,
        unique_tag_values: 100,
        type_schema: schema,
        synchronous_flag: flag,
        journal_mode: mode,
    }
}

#[test]
fn journal_modes_map_by_name() {
    assert_eq!(engine_journal_mode(JournalMode::Delete), SqliteJournalMode::Delete);
    assert_eq!(engine_journal_mode(JournalMode::Truncate), SqliteJournalMode::Truncate);
    assert_eq!(engine_journal_mode(JournalMode::Persist), SqliteJournalMode::Persist);
    assert_eq!(engine_journal_mode(JournalMode::Memory), SqliteJournalMode::Memory);
    assert_eq!(engine_journal_mode(JournalMode::Wal), SqliteJournalMode::Wal);
    assert_eq!(engine_journal_mode(JournalMode::Off), SqliteJournalMode::Off);
}

#[test]
fn durability_settings_map_by_name() {
    assert_eq!(engine_synchronous(Synchronous::Off), SqliteSynchronous::Off);
    assert_eq!(engine_synchronous(Synchronous::Normal), SqliteSynchronous::Normal);
    assert_eq!(engine_synchronous(Synchronous::Full), SqliteSynchronous::Full);
    assert_eq!(engine_synchronous(Synchronous::Extra), SqliteSynchronous::Extra);
}

#[test]
fn options_name_the_layouts_file() {
    for (schema, file) in [
        (SqliteSchemaType::SingleTable, "single_table.db"),
        (SqliteSchemaType::MappingAndDataTables, "mapping_and_data_tables.db"),
        (SqliteSchemaType::Fts5Table, "fts_5_table.db"),
    ] {
        let options =
            connect_options(&config(schema, Synchronous::Normal, JournalMode::Wal)).unwrap();
        assert_eq!(options.get_filename(), Path::new(file));
    }
}

#[test]
fn options_create_a_missing_file() {
    let options = connect_options(&config(
        SqliteSchemaType::SingleTable,
        Synchronous::Normal,
        JournalMode::Wal,
    ))
    .unwrap();
    assert!(options.to_url_lossy().as_str().contains("mode=rwc"));
    let untouched = SqliteConnectOptions::from_str("sqlite:single_table.db").unwrap();
    assert!(!untouched.to_url_lossy().as_str().contains("mode=rwc"));
}

#[test]
fn options_carry_the_configured_pragmas() {
    let options = connect_options(&config(
        SqliteSchemaType::Fts5Table,
        Synchronous::Extra,
        JournalMode::Truncate,
    ))
    .unwrap();
    let shown = format!("{options:?}");
    assert!(shown.contains(r#""journal_mode": Some("TRUNCATE")"#), "{shown}");
    assert!(shown.contains(r#""synchronous": Some("EXTRA")"#), "{shown}");

    let options = connect_options(&config(
        SqliteSchemaType::Fts5Table,
        Synchronous::Normal,
        JournalMode::Wal,
    ))
    .unwrap();
    let shown = format!("{options:?}");
    assert!(shown.contains(r#""journal_mode": Some("WAL")"#), "{shown}");
    assert!(shown.contains(r#""synchronous": Some("NORMAL")"#), "{shown}");
}

#[test]
fn connection_runs_with_the_configured_durability() {
    block_on(async {
        for (flag, level) in [
            (Synchronous::Off, 0),
            (Synchronous::Normal, 1),
            (Synchronous::Full, 2),
            (Synchronous::Extra, 3),
        ] {
            let memory = SqliteConnectOptions::from_str("sqlite::memory:").unwrap();
            let options = apply_settings(
                memory,
                &config(SqliteSchemaType::SingleTable, flag, JournalMode::Memory),
            );
            let mut conn = options.connect().await.unwrap();
            let row = sqlx::query("PRAGMA synchronous").fetch_one(&mut conn).await.unwrap();
            assert_eq!(row.get::<i64, _>(0), level);
        }
    });
}
