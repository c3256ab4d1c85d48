//! Multi-row `INSERT` statements with positionally bound parameters.

use vstd::prelude::*;
use sqlx::QueryBuilder;
use sqlx::Sqlite;
use crate::decimal::{decimal_string, decimal_text};
use crate::workload::{Row, RowView, rows_view};

verus! {

/// A value bound to a statement parameter.
pub ghost enum Bound {
    /// Bound as text.
    Text(Seq<char>),
    /// Bound as a 32-bit integer.
    Int(int),
    /// Bound as a 64-bit integer.
    Int64(int),
}

/// How the numeric columns of a record are bound.
#[derive(Clone, Copy, Debug, PartialEq, Eq, Structural)]
pub enum Binding {
    /// `block_id` and `offset` as integers.
    Native,
    /// `block_id` and `offset` as their decimal text.
    Text,
}

/// A multi-row insert: the statement text built so far and the values bound
/// to its placeholders. It holds a `sqlx::QueryBuilder<Sqlite>`; the field
/// is public so that the caller can build the query and execute it.
#[verifier::external_body]
pub struct BulkInsert {
    pub builder: QueryBuilder<'static, Sqlite>,
}

/// The statement text of a bulk insert.
pub uninterp spec fn bulk_sql(insert: BulkInsert) -> Seq<char>;

/// The values bound to a bulk insert, in placeholder order.
pub uninterp spec fn bulk_args(insert: BulkInsert) -> Seq<Bound>;

/// Whether a bulk insert still takes text and values: it does until a query
/// is built from it.
pub uninterp spec fn bulk_is_open(insert: BulkInsert) -> bool;

impl BulkInsert {
    /// `QueryBuilder::new`: the text starts as `head`, with nothing bound.
    #[verifier::external_body]
    pub(crate) fn start(head: &str) -> (insert: BulkInsert)
        ensures
            bulk_is_open(insert),
            bulk_sql(insert) == head@,
            bulk_args(insert) == Seq::<Bound>::empty(),
    {
        BulkInsert { builder: QueryBuilder::new(head) }
    }

    /// `QueryBuilder::push`: appends `sql` to the text and binds nothing.
    /// Like the binding methods below, it panics on a builder from which a
    /// query was built.
    #[verifier::external_body]
    pub(crate) fn push_sql(&mut self, sql: &str)
        requires
            bulk_is_open(*old(self)),
        ensures
            bulk_is_open(*final(self)),
            bulk_sql(*final(self)) == bulk_sql(*old(self)) + sql@,
            bulk_args(*final(self)) == bulk_args(*old(self)),
    {
        self.builder.push(sql);
    }

    /// `QueryBuilder::push_bind` on a `String`: appends the placeholder `?`
    /// and binds the string as text.
    #[verifier::external_body]
    pub(crate) fn bind_text(&mut self, text: String)
        requires
            bulk_is_open(*old(self)),
        ensures
            bulk_is_open(*final(self)),
            bulk_sql(*final(self)) == bulk_sql(*old(self)) + seq!['?'],
            bulk_args(*final(self)) == bulk_args(*old(self)).push(Bound::Text(text@)),
    {
        self.builder.push_bind(text);
    }

    /// `QueryBuilder::push_bind` on an `i16`: appends the placeholder `?` and
    /// binds the value as a 32-bit integer.
    #[verifier::external_body]
    pub(crate) fn bind_small(&mut self, value: i16)
        requires
            bulk_is_open(*old(self)),
        ensures
            bulk_is_open(*final(self)),
            bulk_sql(*final(self)) == bulk_sql(*old(self)) + seq!['?'],
            bulk_args(*final(self)) == bulk_args(*old(self)).push(Bound::Int(value as int)),
    {
        self.builder.push_bind(value);
    }

    /// `QueryBuilder::push_bind` on an `i64`: appends the placeholder `?` and
    /// binds the value as a 64-bit integer.
    #[verifier::external_body]
    pub(crate) fn bind_big(&mut self, value: i64)
        requires
            bulk_is_open(*old(self)),
        ensures
            bulk_is_open(*final(self)),
            bulk_sql(*final(self)) == bulk_sql(*old(self)) + seq!['?'],
            bulk_args(*final(self)) == bulk_args(*old(self)).push(Bound::Int64(value as int)),
    {
        self.builder.push_bind(value);
    }
}

/// The placeholders of one record: `(?, ?, ?)`.
pub open spec fn tuple_text() -> Seq<char> {
    "(?, ?, ?)"@
}

/// The placeholders of `n` records, separated by `, `.
pub open spec fn tuples_text(n: nat) -> Seq<char>
    decreases n,
{
    if n == 0 {
        Seq::empty()
    } else if n == 1 {
        tuple_text()
    } else {
        tuples_text((n - 1) as nat) + ", "@ + tuple_text()
    }
}

/// The `VALUES` clause for `n` records.
pub open spec fn values_text(n: nat) -> Seq<char> {
    "VALUES "@ + tuples_text(n)
}

/// The three values bound for one record: tag value, block identifier, offset.
pub open spec fn bound_row(row: RowView, binding: Binding) -> Seq<Bound> {
    match binding {
        Binding::Native => seq![
            Bound::Text(row.tag_value),
            Bound::Int(row.block_id),
            Bound::Int64(row.offset),
        ],
        Binding::Text => seq![
            Bound::Text(row.tag_value),
            Bound::Text(decimal_text(row.block_id)),
            Bound::Text(decimal_text(row.offset)),
        ],
    }
}

/// The values bound for `rows`, record after record.
pub open spec fn bound_rows(rows: Seq<RowView>, binding: Binding) -> Seq<Bound>
    decreases rows.len(),
{
    if rows.len() == 0 {
        Seq::empty()
    } else {
        bound_rows(rows.drop_last(), binding) + bound_row(rows.last(), binding)
    }
}

/// A bulk insert binds three values per record.
pub proof fn lemma_bound_rows_len(rows: Seq<RowView>, binding: Binding)
    ensures
        bound_rows(rows, binding).len() == 3 * rows.len(),
    decreases rows.len(),
{
    if rows.len() > 0 {
        lemma_bound_rows_len(rows.drop_last(), binding);
    }
}

/// The value bound at each placeholder: placeholder `3 * i + c` holds column
/// `c` of record `i`.
pub proof fn lemma_bound_rows_index(rows: Seq<RowView>, binding: Binding, i: int, c: int)
    requires
        0 <= i < rows.len(),
        0 <= c < 3,
    ensures
        bound_rows(rows, binding).len() == 3 * rows.len(),
        bound_rows(rows, binding)[3 * i + c] == bound_row(rows[i], binding)[c],
    decreases rows.len(),
{
    lemma_bound_rows_len(rows, binding);
    lemma_bound_rows_len(rows.drop_last(), binding);
    if i < rows.len() - 1 {
        lemma_bound_rows_index(rows.drop_last(), binding, i, c);
    }
}

/// Binds the three values of `row`, appending `(?, ?, ?)` to the text.
fn bind_row(insert: &mut BulkInsert, row: &Row, binding: Binding)
    requires
        bulk_is_open(*old(insert)),
    ensures
        bulk_is_open(*final(insert)),
        bulk_sql(*final(insert)) == bulk_sql(*old(insert)) + tuple_text(),
        bulk_args(*final(insert)) == bulk_args(*old(insert)) + bound_row(row@, binding),
{
    proof {
        reveal_strlit("(?, ?, ?)");
        reveal_strlit("(");
        reveal_strlit(", ");
        reveal_strlit(")");
    }
    insert.push_sql("(");
    insert.bind_text(row.tag_value.clone());
    insert.push_sql(", ");
    match binding {
        Binding::Native => {
            insert.bind_small(row.block_id);
            insert.push_sql(", ");
            insert.bind_big(row.offset);
        },
        Binding::Text => {
            insert.bind_text(decimal_string(row.block_id as i64));
            insert.push_sql(", ");
            insert.bind_text(decimal_string(row.offset));
        },
    }
    insert.push_sql(")");
}

/// Builds the statement `head VALUES (?, ?, ?), (?, ?, ?), ...` with one
/// tuple per record of `batch`, in batch order, and binds each record's tag
/// value, block identifier and offset to its placeholders.
///
/// For an empty batch the `VALUES` list is empty, which the engine rejects
/// when the statement is executed.
pub fn bulk_insert(head: &str, batch: &[Row], binding: Binding) -> (insert: BulkInsert)
    ensures
        bulk_is_open(insert),
        bulk_sql(insert) == head@ + values_text(batch@.len()),
        bulk_args(insert) == bound_rows(rows_view(batch@), binding),
{
    proof {
        reveal_strlit("VALUES ");
        reveal_strlit(", ");
    }
    let mut insert: BulkInsert = BulkInsert::start(head);
    insert.push_sql("VALUES ");
    let mut i: usize = 0;
    while i < batch.len()
        invariant
            i <= batch@.len(),
            bulk_is_open(insert),
            bulk_sql(insert) == head@ + "VALUES "@ + tuples_text(i as nat),
            bulk_args(insert) == bound_rows(rows_view(batch@).take(i as int), binding),
        decreases batch@.len() - i,
    {
        if i > 0 {
            insert.push_sql(", ");
        }
        bind_row(&mut insert, &batch[i], binding);
        proof {
            let rows: Seq<RowView> = rows_view(batch@);
            assert(rows.take(i + 1).drop_last() =~= rows.take(i as int));
        }
        i = i + 1;
    }
    proof {
        assert(rows_view(batch@).take(i as int) =~= rows_view(batch@));
    }
    insert
}

} // verus!
