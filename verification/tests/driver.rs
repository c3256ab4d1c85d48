use sqlite_insert_bench::config::{JournalMode, RunConfig, SqliteSchemaType, Synchronous};
use sqlite_insert_bench::driver::{Action, Driver, Phase};
use sqlite_insert_bench::errors::{AppError, ErrorKind};

fn config(count: usize, batch_size: u16, schema: SqliteSchemaType) -> RunConfig {
    RunConfig {
        count,
        batch_size,
        unique_tag_values: 100,
        type_schema: schema,
        synchronous_flag: Synchronous::Normal,
        journal_mode: JournalMode::Wal,
    }
}

fn failure() -> AppError {
    AppError::from(sqlx::Error::RowNotFound)
}

#[test]
fn invalid_configuration_has_no_run() {
    assert!(Driver::new(config(1, 0, SqliteSchemaType::SingleTable)).is_none());
    assert!(Driver::new(config(usize::MAX, 10, SqliteSchemaType::SingleTable)).is_none());
    let mut no_pool = config(1, 10, SqliteSchemaType::SingleTable);
    no_pool.unique_tag_values = 0;
    assert!(Driver::new(no_pool).is_none());
}

#[test]
fn run_starts_by_connecting() {
    let driver = Driver::new(config(1, 1000, SqliteSchemaType::SingleTable)).unwrap();
    assert_eq!(driver.current_phase(), Phase::Connecting);
    assert!(matches!(driver.action(), Action::Connect));
    assert_eq!(driver.total_records(), 1_000_000);
    assert_eq!(driver.batch_count(), 1000);
    assert_eq!(driver.run_config().batch_size, 1000);
}

#[test]
fn run_goes_through_its_phases_in_order() {
    let mut driver = Driver::new(config(1, 50_000, SqliteSchemaType::Fts5Table)).unwrap();
    assert!(matches!(driver.advance(Ok(())), Action::Prepare));
    assert_eq!(driver.current_phase(), Phase::Preparing);
    assert!(matches!(driver.advance(Ok(())), Action::StartClock));
    assert_eq!(driver.current_phase(), Phase::Starting);
    for b in 0..20u64 {
        match driver.advance(Ok(())) {
            Action::InsertBatch { index, start, end } => {
                assert_eq!(index, b);
                assert_eq!(start, b * 50_000);
                assert_eq!(end, (b + 1) * 50_000);
            }
            other => panic!("batch {b}: {other:?}"),
        }
        assert_eq!(driver.current_phase(), Phase::Inserting(b));
    }
    assert!(matches!(driver.advance(Ok(())), Action::Close));
    assert_eq!(driver.current_phase(), Phase::Closing);
    assert!(matches!(driver.advance(Ok(())), Action::Report));
    assert_eq!(driver.current_phase(), Phase::Reporting);
    assert!(matches!(driver.advance(Ok(())), Action::Stop));
    assert_eq!(driver.current_phase(), Phase::Finished);
    assert!(matches!(driver.advance(Ok(())), Action::Stop));
    assert_eq!(driver.current_phase(), Phase::Finished);
}

#[test]
fn one_million_records_take_one_thousand_batches() {
    for schema in [SqliteSchemaType::SingleTable, SqliteSchemaType::MappingAndDataTables] {
        let mut driver = Driver::new(config(1, 1000, schema)).unwrap();
        let mut action = driver.action();
        let mut batches = 0u64;
        let mut next_offset = 0u64;
        loop {
            match action {
                Action::InsertBatch { index, start, end } => {
                    assert_eq!(index, batches);
                    assert_eq!(start, next_offset);
                    assert_eq!(end - start, 1000);
                    batches += 1;
                    next_offset = end;
                }
                Action::Stop => break,
                Action::Abort(error) => panic!("{error:?}"),
                _ => {}
            }
            action = driver.advance(Ok(()));
        }
        assert_eq!(batches, 1000);
        assert_eq!(next_offset, 1_000_000);
    }
}

#[test]
fn last_batch_of_an_uneven_run_is_short() {
    let mut driver = Driver::new(config(1, 999, SqliteSchemaType::SingleTable)).unwrap();
    let mut last = (0, 0, 0);
    let mut action = driver.action();
    loop {
        match action {
            Action::InsertBatch { index, start, end } => last = (index, start, end),
            Action::Stop => break,
            _ => {}
        }
        action = driver.advance(Ok(()));
    }
    assert_eq!(last, (1001, 999_999, 1_000_000));
}

#[test]
fn run_without_records_inserts_nothing() {
    let mut driver = Driver::new(config(0, 1000, SqliteSchemaType::SingleTable)).unwrap();
    assert_eq!(driver.batch_count(), 0);
    assert!(matches!(driver.advance(Ok(())), Action::Prepare));
    assert!(matches!(driver.advance(Ok(())), Action::StartClock));
    assert!(matches!(driver.advance(Ok(())), Action::Close));
    assert!(matches!(driver.advance(Ok(())), Action::Report));
    assert!(matches!(driver.advance(Ok(())), Action::Stop));
}

#[test]
fn failure_aborts_the_run_with_its_error() {
    let mut driver = Driver::new(config(1, 1000, SqliteSchemaType::SingleTable)).unwrap();
    driver.advance(Ok(()));
    driver.advance(Ok(()));
    driver.advance(Ok(()));
    assert_eq!(driver.current_phase(), Phase::Inserting(0));
    match driver.advance(Err(failure())) {
        Action::Abort(error) => {
            assert!(matches!(*error.kind(), ErrorKind::Sqlx(sqlx::Error::RowNotFound)))
        }
        other => panic!("{other:?}"),
    }
    assert_eq!(driver.current_phase(), Phase::Aborted);
    assert!(matches!(driver.action(), Action::Stop));
    assert!(matches!(driver.advance(Ok(())), Action::Stop));
    assert_eq!(driver.current_phase(), Phase::Aborted);
}

#[test]
fn failure_while_connecting_aborts_before_any_batch() {
    let mut driver = Driver::new(config(1, 1000, SqliteSchemaType::SingleTable)).unwrap();
    let io = AppError::from(std::io::Error::new(std::io::ErrorKind::Other, "disk"));
    assert!(matches!(driver.advance(Err(io)), Action::Abort(_)));
    assert_eq!(driver.current_phase(), Phase::Aborted);
}
