//! The synthetic workload: a pool of tag values drawn once per run, and the
//! records derived from their offsets.

use vstd::prelude::*;
use uuid::Uuid;

verus! {

/// Block identifiers cycle over `0..BLOCK_MODULUS`.
pub const BLOCK_MODULUS: u64 = 32768;

/// Length of a tag value: 32 hexadecimal digits and 4 hyphens.
pub const TAG_LENGTH: usize = 36;

/// One synthetic record.
#[derive(Debug)]
pub struct Row {
    pub tag_value: String,
    pub block_id: i16,
    pub offset: i64,
}

/// What a record holds, as mathematical values.
pub ghost struct RowView {
    pub tag_value: Seq<char>,
    pub block_id: int,
    pub offset: int,
}

impl View for Row {
    type V = RowView;

    open spec fn view(&self) -> RowView {
        RowView {
            tag_value: self.tag_value@,
            block_id: self.block_id as int,
            offset: self.offset as int,
        }
    }
}

/// The tag values of a pool, in order.
pub open spec fn pool_view(pool: Seq<String>) -> Seq<Seq<char>> {
    Seq::new(pool.len(), |i: int| pool[i]@)
}

/// The records of a batch, in order.
pub open spec fn rows_view(rows: Seq<Row>) -> Seq<RowView> {
    Seq::new(rows.len(), |i: int| rows[i]@)
}

/// Index into a pool of `pool_size` values of the tag that offset `o` gets.
pub open spec fn tag_index_of(o: nat, pool_size: nat) -> nat
    recommends
        pool_size > 0,
{
    o % pool_size
}

/// The block identifier that offset `o` gets.
pub open spec fn block_id_of(o: nat) -> int {
    (o % 32768) as int
}

/// The record generated for offset `o`.
pub open spec fn record_at(pool: Seq<Seq<char>>, o: nat) -> RowView
    recommends
        pool.len() > 0,
{
    RowView {
        tag_value: pool[tag_index_of(o, pool.len()) as int],
        block_id: block_id_of(o),
        offset: o as int,
    }
}

/// The records generated for the offsets `start..end`, in order.
pub open spec fn records_in(pool: Seq<Seq<char>>, start: nat, end: nat) -> Seq<RowView>
    recommends
        pool.len() > 0,
        start <= end,
{
    Seq::new((end - start) as nat, |i: int| record_at(pool, (start + i) as nat))
}

/// The tag values carried by the records with offsets below `n`.
pub open spec fn tags_used(pool: Seq<Seq<char>>, n: nat) -> Set<Seq<char>> {
    Set::new(|t: Seq<char>| exists|o: nat| o < n && #[trigger] record_at(pool, o).tag_value == t)
}

/// A record depends on its offset alone: whichever range asks for offset `o`
/// gets the same record, with the tag at `o % pool.len()`, the block
/// identifier `o % 32768` within `0..=32767`, and the offset itself.
pub proof fn lemma_record_independent_of_batch(
    pool: Seq<Seq<char>>,
    o: nat,
    s1: nat,
    e1: nat,
    s2: nat,
    e2: nat,
)
    requires
        pool.len() > 0,
        s1 <= o < e1,
        s2 <= o < e2,
    ensures
        records_in(pool, s1, e1)[o - s1] == records_in(pool, s2, e2)[o - s2],
        records_in(pool, s1, e1)[o - s1] == record_at(pool, o),
        record_at(pool, o).tag_value == pool[(o % pool.len()) as int],
        record_at(pool, o).block_id == o % 32768,
        0 <= record_at(pool, o).block_id <= 32767,
        record_at(pool, o).offset == o,
{
}

/// Two adjacent ranges generate, one after the other, what their union
/// generates: where a range is cut changes no record.
pub proof fn lemma_records_concatenate(pool: Seq<Seq<char>>, start: nat, mid: nat, end: nat)
    requires
        start <= mid <= end,
    ensures
        records_in(pool, start, mid) + records_in(pool, mid, end) == records_in(pool, start, end),
{
}

/// The records with offsets below `n` carry exactly the first
/// `min(pool.len(), n)` tag values of the pool; where the pool holds no value
/// twice, that is also the number of distinct tag values generated.
pub proof fn lemma_distinct_tags(pool: Seq<Seq<char>>, n: nat)
    requires
        pool.len() > 0,
    ensures
        tags_used(pool, n) == pool.subrange(
            0,
            if n < pool.len() {
                n as int
            } else {
                pool.len() as int
            },
        ).to_set(),
        tags_used(pool, n).finite(),
        tags_used(pool, n).len() <= pool.len(),
        tags_used(pool, n).len() <= n,
        pool.no_duplicates() ==> tags_used(pool, n).len() == (if n < pool.len() {
            n
        } else {
            pool.len()
        }),
{
    let m: int = if n < pool.len() {
        n as int
    } else {
        pool.len() as int
    };
    let first: Seq<Seq<char>> = pool.subrange(0, m);
    assert forall|t: Seq<char>| tags_used(pool, n).contains(t) implies first.to_set().contains(
        t,
    ) by {
        let o: nat = choose|o: nat| o < n && #[trigger] record_at(pool, o).tag_value == t;
        let i: int = (o % pool.len()) as int;
        assert(i < m) by {
            if n < pool.len() {
                vstd::arithmetic::div_mod::lemma_small_mod(o, pool.len());
            }
        }
        assert(first[i] == t);
    }
    assert forall|t: Seq<char>| first.to_set().contains(t) implies tags_used(pool, n).contains(
        t,
    ) by {
        let i: int = choose|i: int| 0 <= i < first.len() && first[i] == t;
        vstd::arithmetic::div_mod::lemma_small_mod(i as nat, pool.len());
        assert(record_at(pool, i as nat).tag_value == t);
    }
    assert(tags_used(pool, n) =~= first.to_set());
    first.lemma_cardinality_of_set();
    if pool.no_duplicates() {
        first.unique_seq_to_set();
    }
}

/// Whether `c` is a lower-case hexadecimal digit.
pub open spec fn is_lower_hex(c: char) -> bool {
    ('0' <= c && c <= '9') || ('a' <= c && c <= 'f')
}

/// Whether `s` is the hyphenated lower-case text of a random (version 4)
/// identifier: `xxxxxxxx-xxxx-4xxx-yxxx-xxxxxxxxxxxx`.
pub open spec fn is_tag_text(s: Seq<char>) -> bool {
    &&& s.len() == TAG_LENGTH
    &&& forall|i: int|
        0 <= i < 36 ==> if i == 8 || i == 13 || i == 18 || i == 23 {
            #[trigger] s[i] == '-'
        } else {
            is_lower_hex(s[i])
        }
    &&& s[14] == '4'
    &&& (s[19] == '8' || s[19] == '9' || s[19] == 'a' || s[19] == 'b')
}

/// `Uuid::new_v4` followed by `to_string`: a freshly drawn random identifier
/// in its hyphenated lower-case form. The value differs from call to call;
/// only its shape is claimed.
#[verifier::external_body]
fn fresh_tag_value() -> (tag: String)
    ensures
        is_tag_text(tag@),
{
    Uuid::new_v4().to_string()
}

/// Draws a pool of `size` tag values.
pub fn generate_pool(size: u32) -> (pool: Vec<String>)
    ensures
        pool@.len() == size,
        forall|i: int| 0 <= i < size ==> is_tag_text(#[trigger] pool@[i]@),
{
    let mut pool: Vec<String> = Vec::new();
    let mut i: u32 = 0;
    while i < size
        invariant
            i <= size,
            pool@.len() == i,
            forall|j: int| 0 <= j < i ==> is_tag_text(#[trigger] pool@[j]@),
        decreases size - i,
    {
        pool.push(fresh_tag_value());
        i = i + 1;
    }
    pool
}

/// The block identifier of `offset`.
pub fn block_id(offset: u64) -> (id: i16)
    ensures
        id == block_id_of(offset as nat),
        0 <= id <= 32767,
{
    (offset % BLOCK_MODULUS) as i16
}

/// Index into a pool of `pool_size` values of the tag for `offset`.
pub fn tag_index(offset: u64, pool_size: usize) -> (index: usize)
    requires
        pool_size > 0,
    ensures
        index == tag_index_of(offset as nat, pool_size as nat),
        index < pool_size,
{
    (offset % (pool_size as u64)) as usize
}

/// The record for `offset`.
pub fn generate_row(pool: &Vec<String>, offset: u64) -> (row: Row)
    requires
        pool@.len() > 0,
        offset <= i64::MAX,
    ensures
        row@ == record_at(pool_view(pool@), offset as nat),
{
    let index: usize = tag_index(offset, pool.len());
    Row { tag_value: pool[index].clone(), block_id: block_id(offset), offset: offset as i64 }
}

/// The records for the offsets `start..end`, in order.
pub fn generate_batch(pool: &Vec<String>, start: u64, end: u64) -> (rows: Vec<Row>)
    requires
        pool@.len() > 0,
        start <= end <= i64::MAX,
    ensures
        rows@.len() == end - start,
        rows_view(rows@) == records_in(pool_view(pool@), start as nat, end as nat),
{
    let mut rows: Vec<Row> = Vec::new();
    let mut offset: u64 = start;
    while offset < end
        invariant
            pool@.len() > 0,
            start <= offset <= end <= i64::MAX,
            rows@.len() == offset - start,
            forall|i: int|
                0 <= i < rows@.len() ==> (#[trigger] rows@[i])@ == record_at(
                    pool_view(pool@),
                    (start + i) as nat,
                ),
        decreases end - offset,
    {
        rows.push(generate_row(pool, offset));
        offset = offset + 1;
    }
    rows
}

} // verus!
