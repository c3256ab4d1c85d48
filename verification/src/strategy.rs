//! The three table layouts: the statements that prepare each one, and the
//! statements that insert one batch into it.
//!
//! Nothing here touches a connection. Each function returns the statements
//! to execute, in order; the caller runs the preparation once per run and
//! each batch inside one transaction of its own.

use vstd::prelude::*;
use crate::config::SqliteSchemaType;
use crate::statement::{
    bound_rows, bulk_args, bulk_insert, bulk_is_open, bulk_sql, lemma_bound_rows_len, values_text,
    Binding, Bound, BulkInsert,
};
use crate::workload::{Row, RowView, rows_view};

verus! {

/// Creates the wide table of the single-table layout.
pub const CREATE_WIDE_TABLE: &'static str =
    "CREATE TABLE IF NOT EXISTS tag_data (tag_value TEXT NOT NULL, block_id INTEGER NOT NULL, offset INTEGER NOT NULL)";

/// Creates the index on the wide table's tag value.
pub const CREATE_TAG_VALUE_INDEX: &'static str =
    "CREATE INDEX IF NOT EXISTS idx_tagvalue ON tag_data (tag_value)";

/// Creates the dictionary of tag values; a tag value occurs in it once.
pub const CREATE_MAPPING_TABLE: &'static str =
    "CREATE TABLE IF NOT EXISTS tag_mapping (id INTEGER PRIMARY KEY, tag_value TEXT UNIQUE NOT NULL)";

/// Creates the data table that refers to the dictionary by identifier.
pub const CREATE_DATA_TABLE: &'static str =
    "CREATE TABLE IF NOT EXISTS tag_data (tag_id INTEGER NOT NULL, block_id INTEGER NOT NULL, offset INTEGER NOT NULL, FOREIGN KEY(tag_id) REFERENCES tag_mapping(id))";

/// Creates the index on the data table's tag identifier.
pub const CREATE_TAG_ID_INDEX: &'static str =
    "CREATE INDEX IF NOT EXISTS idx_tag_id ON tag_data (tag_id)";

/// Creates the full-text table; every column is indexed as text.
pub const CREATE_FTS5_TABLE: &'static str =
    "CREATE VIRTUAL TABLE IF NOT EXISTS tag_data USING fts5(tag_value,block_id,offset)";

/// Creates the staging table of the connection.
pub const CREATE_STAGING_TABLE: &'static str =
    "CREATE TEMP TABLE IF NOT EXISTS temp_batch (tag_value TEXT NOT NULL, block_id INTEGER NOT NULL, offset INTEGER NOT NULL);";

/// Empties the staging table.
pub const CLEAR_STAGING_TABLE: &'static str = "DELETE FROM temp_batch;";

/// Head of the multi-row insert into the table that holds tag values.
pub const INSERT_INTO_TAG_DATA: &'static str = "INSERT INTO tag_data(tag_value, block_id, offset) ";

/// Head of the multi-row insert into the staging table.
pub const INSERT_INTO_STAGING: &'static str = "INSERT INTO temp_batch(tag_value, block_id, offset) ";

/// Adds the staged tag values that the dictionary lacks.
pub const UPSERT_MAPPING: &'static str =
    "INSERT OR IGNORE INTO tag_mapping(tag_value) SELECT tag_value FROM temp_batch;";

/// Inserts the staged records with each tag value resolved to its identifier.
pub const INSERT_RESOLVED: &'static str =
    "INSERT INTO tag_data(tag_id, block_id, offset) SELECT tm.id, tb.block_id, tb.offset FROM temp_batch AS tb JOIN tag_mapping AS tm USING(tag_value);";

/// One statement of a batch insertion.
pub enum Step {
    /// A statement without parameters.
    Execute(&'static str),
    /// A multi-row insert with its bound values.
    Bulk(BulkInsert),
}

/// What a step executes.
pub ghost enum StepView {
    Execute { sql: Seq<char> },
    Bulk { sql: Seq<char>, args: Seq<Bound> },
}

impl View for Step {
    type V = StepView;

    open spec fn view(&self) -> StepView {
        match *self {
            Step::Execute(sql) => StepView::Execute { sql: sql@ },
            Step::Bulk(insert) => StepView::Bulk { sql: bulk_sql(insert), args: bulk_args(insert) },
        }
    }
}

/// What each step of `steps` executes.
pub open spec fn steps_view(steps: Seq<Step>) -> Seq<StepView> {
    Seq::new(steps.len(), |i: int| steps[i]@)
}

/// Whether a query can still be built from every multi-row insert of
/// `steps`.
pub open spec fn steps_ready(steps: Seq<Step>) -> bool {
    forall|i: int|
        0 <= i < steps.len() ==> (#[trigger] steps[i] matches Step::Bulk(insert)
            ==> bulk_is_open(insert))
}

/// The text of each statement of `statements`.
pub open spec fn statements_view(statements: Seq<&'static str>) -> Seq<Seq<char>> {
    Seq::new(statements.len(), |i: int| statements[i]@)
}

/// The multi-row insert of `rows` that starts with `head`.
pub open spec fn bulk_step(head: Seq<char>, rows: Seq<RowView>, binding: Binding) -> StepView {
    StepView::Bulk { sql: head + values_text(rows.len()), args: bound_rows(rows, binding) }
}

/// Number of records a step inserts into the table it names: a multi-row
/// insert binds three values per record.
pub open spec fn rows_bound(step: StepView) -> nat {
    match step {
        StepView::Execute { .. } => 0,
        StepView::Bulk { args, .. } => args.len() / 3,
    }
}

/// Whether a statement creates its object only where it does not exist yet,
/// so that executing it again changes nothing and does not fail.
pub open spec fn creates_if_absent(sql: Seq<char>) -> bool {
    ||| "CREATE TABLE IF NOT EXISTS "@.is_prefix_of(sql)
    ||| "CREATE INDEX IF NOT EXISTS "@.is_prefix_of(sql)
    ||| "CREATE VIRTUAL TABLE IF NOT EXISTS "@.is_prefix_of(sql)
    ||| "CREATE TEMP TABLE IF NOT EXISTS "@.is_prefix_of(sql)
}

/// Preparation of the single-table layout: the wide table, then the index
/// on its tag value.
pub open spec fn single_table_ddl() -> Seq<Seq<char>> {
    seq![CREATE_WIDE_TABLE@, CREATE_TAG_VALUE_INDEX@]
}

/// Preparation of the dictionary layout: the mapping table, the data table
/// that refers to it, then the index on the data table's tag identifier.
pub open spec fn mapping_and_data_tables_ddl() -> Seq<Seq<char>> {
    seq![CREATE_MAPPING_TABLE@, CREATE_DATA_TABLE@, CREATE_TAG_ID_INDEX@]
}

/// Preparation of the full-text layout: the virtual table alone, which
/// indexes itself.
pub open spec fn fts5_table_ddl() -> Seq<Seq<char>> {
    seq![CREATE_FTS5_TABLE@]
}

/// Preparation of `schema`.
pub open spec fn ddl_of(schema: SqliteSchemaType) -> Seq<Seq<char>> {
    match schema {
        SqliteSchemaType::SingleTable => single_table_ddl(),
        SqliteSchemaType::MappingAndDataTables => mapping_and_data_tables_ddl(),
        SqliteSchemaType::Fts5Table => fts5_table_ddl(),
    }
}

/// Insertion into the single table: one multi-row insert, numbers bound as
/// integers.
pub open spec fn single_table_steps(rows: Seq<RowView>) -> Seq<StepView> {
    seq![bulk_step(INSERT_INTO_TAG_DATA@, rows, Binding::Native)]
}

/// Insertion into the full-text table: one multi-row insert, numbers bound
/// as their decimal text.
pub open spec fn fts5_table_steps(rows: Seq<RowView>) -> Seq<StepView> {
    seq![bulk_step(INSERT_INTO_TAG_DATA@, rows, Binding::Text)]
}

/// Insertion through the dictionary: make sure the staging table exists,
/// clear it, load the batch into it, add the tag values that the mapping
/// table lacks, then insert the batch with each tag resolved to its
/// identifier.
pub open spec fn mapping_and_data_tables_steps(rows: Seq<RowView>) -> Seq<StepView> {
    seq![
        StepView::Execute { sql: CREATE_STAGING_TABLE@ },
        StepView::Execute { sql: CLEAR_STAGING_TABLE@ },
        bulk_step(INSERT_INTO_STAGING@, rows, Binding::Native),
        StepView::Execute { sql: UPSERT_MAPPING@ },
        StepView::Execute { sql: INSERT_RESOLVED@ },
    ]
}

/// Insertion of `rows` under `schema`.
pub open spec fn steps_of(schema: SqliteSchemaType, rows: Seq<RowView>) -> Seq<StepView> {
    match schema {
        SqliteSchemaType::SingleTable => single_table_steps(rows),
        SqliteSchemaType::MappingAndDataTables => mapping_and_data_tables_steps(rows),
        SqliteSchemaType::Fts5Table => fts5_table_steps(rows),
    }
}

/// The statements that prepare the single-table layout.
pub fn prepare_single_table() -> (statements: Vec<&'static str>)
    ensures
        statements_view(statements@) == single_table_ddl(),
{
    let mut statements: Vec<&'static str> = Vec::new();
    statements.push(CREATE_WIDE_TABLE);
    statements.push(CREATE_TAG_VALUE_INDEX);
    statements
}

/// The statements that prepare the dictionary layout.
pub fn prepare_mapping_and_data_tables() -> (statements: Vec<&'static str>)
    ensures
        statements_view(statements@) == mapping_and_data_tables_ddl(),
{
    let mut statements: Vec<&'static str> = Vec::new();
    statements.push(CREATE_MAPPING_TABLE);
    statements.push(CREATE_DATA_TABLE);
    statements.push(CREATE_TAG_ID_INDEX);
    statements
}

/// The statement that prepares the full-text layout.
pub fn prepare_fts5_table() -> (statements: Vec<&'static str>)
    ensures
        statements_view(statements@) == fts5_table_ddl(),
{
    let mut statements: Vec<&'static str> = Vec::new();
    statements.push(CREATE_FTS5_TABLE);
    statements
}

/// The statements that prepare `schema`, in the order to execute them.
pub fn prepare_tables(schema: SqliteSchemaType) -> (statements: Vec<&'static str>)
    ensures
        statements@.len() == ddl_of(schema).len(),
        statements_view(statements@) == ddl_of(schema),
{
    match schema {
        SqliteSchemaType::SingleTable => prepare_single_table(),
        SqliteSchemaType::MappingAndDataTables => prepare_mapping_and_data_tables(),
        SqliteSchemaType::Fts5Table => prepare_fts5_table(),
    }
}

/// The statement that inserts `batch` into the single table.
pub fn insert_batch_single_table(batch: &[Row]) -> (steps: Vec<Step>)
    ensures
        steps@.len() == 1,
        steps_ready(steps@),
        steps_view(steps@) == single_table_steps(rows_view(batch@)),
{
    let mut steps: Vec<Step> = Vec::new();
    steps.push(Step::Bulk(bulk_insert(INSERT_INTO_TAG_DATA, batch, Binding::Native)));
    steps
}

/// The statement that inserts `batch` into the full-text table.
pub fn insert_batch_fts5_table(batch: &[Row]) -> (steps: Vec<Step>)
    ensures
        steps@.len() == 1,
        steps_ready(steps@),
        steps_view(steps@) == fts5_table_steps(rows_view(batch@)),
{
    let mut steps: Vec<Step> = Vec::new();
    steps.push(Step::Bulk(bulk_insert(INSERT_INTO_TAG_DATA, batch, Binding::Text)));
    steps
}

/// The statements that insert `batch` through the dictionary.
pub fn insert_batch_mapping_and_data_tables(batch: &[Row]) -> (steps: Vec<Step>)
    ensures
        steps@.len() == 5,
        steps_ready(steps@),
        steps_view(steps@) == mapping_and_data_tables_steps(rows_view(batch@)),
{
    let mut steps: Vec<Step> = Vec::new();
    steps.push(Step::Execute(CREATE_STAGING_TABLE));
    steps.push(Step::Execute(CLEAR_STAGING_TABLE));
    steps.push(Step::Bulk(bulk_insert(INSERT_INTO_STAGING, batch, Binding::Native)));
    steps.push(Step::Execute(UPSERT_MAPPING));
    steps.push(Step::Execute(INSERT_RESOLVED));
    steps
}

/// The statements that insert `batch` under `schema`, in the order to
/// execute them inside the caller's transaction.
pub fn insert_batch(schema: SqliteSchemaType, batch: &[Row]) -> (steps: Vec<Step>)
    ensures
        steps@.len() == steps_of(schema, rows_view(batch@)).len(),
        steps_ready(steps@),
        steps_view(steps@) == steps_of(schema, rows_view(batch@)),
{
    match schema {
        SqliteSchemaType::SingleTable => insert_batch_single_table(batch),
        SqliteSchemaType::MappingAndDataTables => insert_batch_mapping_and_data_tables(batch),
        SqliteSchemaType::Fts5Table => insert_batch_fts5_table(batch),
    }
}

/// Preparation can be repeated: every statement that prepares a layout, and
/// the statement that creates the staging table, creates its object only
/// where it is absent.
pub proof fn lemma_preparation_is_repeatable(schema: SqliteSchemaType, i: int)
    requires
        0 <= i < ddl_of(schema).len(),
    ensures
        creates_if_absent(ddl_of(schema)[i]),
        creates_if_absent(CREATE_STAGING_TABLE@),
{
    reveal_strlit("CREATE TABLE IF NOT EXISTS ");
    reveal_strlit("CREATE INDEX IF NOT EXISTS ");
    reveal_strlit("CREATE VIRTUAL TABLE IF NOT EXISTS ");
    reveal_strlit("CREATE TEMP TABLE IF NOT EXISTS ");
    reveal_strlit(
        "CREATE TABLE IF NOT EXISTS tag_data (tag_value TEXT NOT NULL, block_id INTEGER NOT NULL, offset INTEGER NOT NULL)",
    );
    reveal_strlit("CREATE INDEX IF NOT EXISTS idx_tagvalue ON tag_data (tag_value)");
    reveal_strlit(
        "CREATE TABLE IF NOT EXISTS tag_mapping (id INTEGER PRIMARY KEY, tag_value TEXT UNIQUE NOT NULL)",
    );
    reveal_strlit(
        "CREATE TABLE IF NOT EXISTS tag_data (tag_id INTEGER NOT NULL, block_id INTEGER NOT NULL, offset INTEGER NOT NULL, FOREIGN KEY(tag_id) REFERENCES tag_mapping(id))",
    );
    reveal_strlit("CREATE INDEX IF NOT EXISTS idx_tag_id ON tag_data (tag_id)");
    reveal_strlit(
        "CREATE VIRTUAL TABLE IF NOT EXISTS tag_data USING fts5(tag_value,block_id,offset)",
    );
    reveal_strlit(
        "CREATE TEMP TABLE IF NOT EXISTS temp_batch (tag_value TEXT NOT NULL, block_id INTEGER NOT NULL, offset INTEGER NOT NULL);",
    );
}

/// Under every layout a batch is loaded by exactly one multi-row insert,
/// which carries every record of the batch, three bound values each; no
/// other step binds a record.
pub proof fn lemma_batch_inserted_once(schema: SqliteSchemaType, rows: Seq<RowView>)
    ensures
        ({
            let steps: Seq<StepView> = steps_of(schema, rows);
            let at: int = if schema == SqliteSchemaType::MappingAndDataTables {
                2
            } else {
                0
            };
            &&& at < steps.len()
            &&& steps[at] is Bulk
            &&& rows_bound(steps[at]) == rows.len()
            &&& forall|i: int| 0 <= i < steps.len() && i != at ==> steps[i] is Execute
        }),
{
    lemma_bound_rows_len(rows, Binding::Native);
    lemma_bound_rows_len(rows, Binding::Text);
}

} // verus!
