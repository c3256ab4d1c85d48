use sqlite_insert_bench::batches::{
    batch_bounds, num_batches, total_records, MAX_RECORDS, RECORDS_PER_UNIT,
};

fn ranges(total: u64, batch_size: u16) -> Vec<(u64, u64)> {
    (0..num_batches(total, batch_size)).map(|b| batch_bounds(b, batch_size, total)).collect()
}

#[test]
fn total_records_counts_millions() {
    assert_eq!(total_records(0), Some(0));
    assert_eq!(total_records(1), Some(1_000_000));
    assert_eq!(total_records(10), Some(10_000_000));
    assert_eq!(RECORDS_PER_UNIT, 1_000_000);
}

#[test]
fn total_records_stops_at_the_signed_limit() {
    assert_eq!(MAX_RECORDS, i64::MAX as u64);
    assert_eq!(total_records(9_223_372_036_854), Some(9_223_372_036_854_000_000));
    assert_eq!(total_records(9_223_372_036_855), None);
    assert_eq!(total_records(usize::MAX), None);
}

#[test]
fn num_batches_rounds_up() {
    assert_eq!(num_batches(0, 10), 0);
    assert_eq!(num_batches(1, 10), 1);
    assert_eq!(num_batches(10, 10), 1);
    assert_eq!(num_batches(11, 10), 2);
    assert_eq!(num_batches(1_000_000, 1000), 1000);
    assert_eq!(num_batches(1_000_000, 999), 1002);
    assert_eq!(num_batches(10_000_000, 50_000), 200);
    assert_eq!(num_batches(7, 1), 7);
}

#[test]
fn num_batches_of_the_largest_run() {
    assert_eq!(num_batches(u64::MAX, 1), u64::MAX);
    assert_eq!(num_batches(u64::MAX, u16::MAX), 281_479_271_743_489);
    assert_eq!(num_batches(u64::MAX - 1, 2), 9_223_372_036_854_775_807);
}

#[test]
fn batch_bounds_of_an_even_split() {
    assert_eq!(batch_bounds(0, 1000, 1_000_000), (0, 1000));
    assert_eq!(batch_bounds(1, 1000, 1_000_000), (1000, 2000));
    assert_eq!(batch_bounds(999, 1000, 1_000_000), (999_000, 1_000_000));
}

#[test]
fn last_batch_is_clamped_to_the_total() {
    assert_eq!(ranges(10, 4), vec![(0, 4), (4, 8), (8, 10)]);
    assert_eq!(ranges(3, 10), vec![(0, 3)]);
    assert_eq!(ranges(0, 10), vec![]);
}

#[test]
fn batch_bounds_near_the_largest_offset() {
    let total = u64::MAX;
    let last = num_batches(total, u16::MAX) - 1;
    let (start, end) = batch_bounds(last, u16::MAX, total);
    assert_eq!(end, u64::MAX);
    assert_eq!(start, last * 65_535);
    assert!(start < end && end - start <= 65_535);
}

#[test]
fn batches_partition_the_run() {
    for (total, batch_size) in [(1u64, 1u16), (10, 3), (10, 10), (99, 10), (100, 10), (101, 10), (1_000, 7)] {
        let all = ranges(total, batch_size);
        let mut next = 0;
        for &(start, end) in &all {
            assert_eq!(start, next);
            assert!(start < end);
            assert!(end - start <= batch_size as u64);
            next = end;
        }
        assert_eq!(next, total);
        for o in 0..total {
            let holders: Vec<usize> =
                (0..all.len()).filter(|&b| all[b].0 <= o && o < all[b].1).collect();
            assert_eq!(holders, vec![(o / batch_size as u64) as usize]);
        }
    }
}

#[test]
fn final_batch_size_is_the_remainder_or_a_full_batch() {
    for (total, batch_size) in [(10u64, 4u16), (12, 4), (1, 4), (1_000_000, 1000), (1_000_001, 1000)] {
        let all = ranges(total, batch_size);
        let (start, end) = all[all.len() - 1];
        let expected = if total % batch_size as u64 != 0 {
            total % batch_size as u64
        } else {
            batch_size as u64
        };
        assert_eq!(end - start, expected);
    }
    assert_eq!(ranges(10, 4)[2], (8, 10));
    assert_eq!(ranges(1_000_001, 1000)[1000], (1_000_000, 1_000_001));
}
