use sqlite_insert_bench::workload::{
    block_id, generate_batch, generate_pool, generate_row, tag_index, BLOCK_MODULUS, TAG_LENGTH,
};
use std::collections::HashSet;

fn pool_of(size: usize) -> Vec<String> {
    (0..size).map(|i| format!("tag-{i}")).collect()
}

#[test]
fn block_id_cycles_over_32768() {
    assert_eq!(BLOCK_MODULUS, 32768);
    assert_eq!(block_id(0), 0);
    assert_eq!(block_id(1), 1);
    assert_eq!(block_id(32767), 32767);
    assert_eq!(block_id(32768), 0);
    assert_eq!(block_id(32769), 1);
    assert_eq!(block_id(1_000_000), 16_960);
    assert_eq!(block_id(u64::MAX), 32767);
}

#[test]
fn block_id_stays_in_range() {
    for o in (0..200_000u64).step_by(37) {
        let id = block_id(o);
        assert!((0..=32767).contains(&id));
        assert_eq!(id as u64, o % 32768);
    }
}

#[test]
fn tag_index_cycles_over_the_pool() {
    assert_eq!(tag_index(0, 100), 0);
    assert_eq!(tag_index(99, 100), 99);
    assert_eq!(tag_index(100, 100), 0);
    assert_eq!(tag_index(1_000_000, 7), 1);
    assert_eq!(tag_index(5, 1), 0);
    assert_eq!(tag_index(u64::MAX, 10), 5);
}

#[test]
fn pool_has_the_size_asked_for() {
    assert_eq!(generate_pool(0).len(), 0);
    assert_eq!(generate_pool(1).len(), 1);
    assert_eq!(generate_pool(250).len(), 250);
}

#[test]
fn pool_values_are_hyphenated_random_identifiers() {
    assert_eq!(TAG_LENGTH, 36);
    for tag in generate_pool(50) {
        assert_eq!(tag.len(), 36);
        let bytes = tag.as_bytes();
        for (i, &b) in bytes.iter().enumerate() {
            if i == 8 || i == 13 || i == 18 || i == 23 {
                assert_eq!(b, b'-');
            } else {
                assert!(b.is_ascii_digit() || (b'a'..=b'f').contains(&b));
            }
        }
        assert_eq!(bytes[14], b'4');
        assert!(matches!(bytes[19], b'8' | b'9' | b'a' | b'b'));
        let parsed = uuid::Uuid::parse_str(&tag).unwrap();
        assert_eq!(parsed.get_version_num(), 4);
        assert_eq!(parsed.to_string(), tag);
    }
}

#[test]
fn pool_values_differ_between_draws() {
    let pool = generate_pool(1000);
    let distinct: HashSet<&String> = pool.iter().collect();
    assert_eq!(distinct.len(), 1000);
    assert_ne!(generate_pool(1), generate_pool(1));
}

#[test]
fn row_carries_tag_block_and_offset() {
    let pool = pool_of(3);
    let row = generate_row(&pool, 32_770);
    assert_eq!(row.tag_value, "tag-1");
    assert_eq!(row.block_id, 2);
    assert_eq!(row.offset, 32_770);
}

#[test]
fn row_at_the_largest_offset() {
    let pool = pool_of(10);
    let row = generate_row(&pool, i64::MAX as u64);
    assert_eq!(row.tag_value, "tag-7");
    assert_eq!(row.block_id, 32767);
    assert_eq!(row.offset, i64::MAX);
}

#[test]
fn batch_holds_one_row_per_offset_in_order() {
    let pool = pool_of(3);
    let rows = generate_batch(&pool, 4, 9);
    assert_eq!(rows.len(), 5);
    let offsets: Vec<i64> = rows.iter().map(|r| r.offset).collect();
    assert_eq!(offsets, vec![4, 5, 6, 7, 8]);
    let tags: Vec<&str> = rows.iter().map(|r| r.tag_value.as_str()).collect();
    assert_eq!(tags, vec!["tag-1", "tag-2", "tag-0", "tag-1", "tag-2"]);
    let blocks: Vec<i16> = rows.iter().map(|r| r.block_id).collect();
    assert_eq!(blocks, vec![4, 5, 6, 7, 8]);
}

#[test]
fn empty_range_gives_no_rows() {
    let pool = pool_of(3);
    assert!(generate_batch(&pool, 0, 0).is_empty());
    assert!(generate_batch(&pool, 17, 17).is_empty());
}

#[test]
fn pool_of_one_gives_every_row_the_same_tag() {
    let pool = pool_of(1);
    let rows = generate_batch(&pool, 0, 10);
    assert!(rows.iter().all(|r| r.tag_value == "tag-0"));
}

#[test]
fn rows_do_not_depend_on_where_batches_are_cut() {
    let pool = pool_of(7);
    let whole = generate_batch(&pool, 0, 100);
    for batch_size in [1u64, 3, 10, 33, 100] {
        let mut start = 0;
        while start < 100 {
            let end = (start + batch_size).min(100);
            let part = generate_batch(&pool, start, end);
            for (i, row) in part.iter().enumerate() {
                let same = &whole[start as usize + i];
                assert_eq!(row.tag_value, same.tag_value);
                assert_eq!(row.tag_value, pool[(start as usize + i) % 7]);
                assert_eq!(row.block_id, same.block_id);
                assert_eq!(row.offset, same.offset);
            }
            start = end;
        }
    }
}

#[test]
fn distinct_tags_are_the_smaller_of_pool_and_records() {
    for (pool_size, records, expected) in [(5usize, 20u64, 5usize), (50, 20, 20), (20, 20, 20), (1, 9, 1), (9, 0, 0)] {
        let pool = pool_of(pool_size);
        let rows = generate_batch(&pool, 0, records);
        let distinct: HashSet<&str> = rows.iter().map(|r| r.tag_value.as_str()).collect();
        assert_eq!(distinct.len(), expected);
    }
}

#[test]
fn one_million_records_use_one_hundred_tags() {
    let pool = generate_pool(100);
    let mut distinct: HashSet<String> = HashSet::new();
    let mut records = 0u64;
    for b in 0..1000u64 {
        let rows = generate_batch(&pool, b * 1000, (b + 1) * 1000);
        records += rows.len() as u64;
        for row in rows {
            distinct.insert(row.tag_value);
        }
    }
    assert_eq!(records, 1_000_000);
    assert_eq!(distinct.len(), 100);
}
