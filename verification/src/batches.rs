//! Batch planning: how a run of `total` records is cut into consecutive
//! offset ranges of at most `batch_size` records each.

use vstd::prelude::*;
use vstd::arithmetic::div_mod::*;
use vstd::arithmetic::mul::*;

verus! {

/// Records per unit of the configured record count.
pub const RECORDS_PER_UNIT: u64 = 1_000_000;

/// Largest offset bound of a run: offsets are stored in a signed 64-bit column.
pub const MAX_RECORDS: u64 = 0x7fff_ffff_ffff_ffff;

/// Total number of records of a run configured with `count` millions.
pub open spec fn total_records_of(count: nat) -> nat {
    count * 1_000_000
}

/// Number of batches: `total / batch_size`, rounded up.
pub open spec fn num_batches_of(total: nat, batch_size: nat) -> nat
    recommends
        batch_size > 0,
{
    ((total + batch_size - 1) / (batch_size as int)) as nat
}

/// First offset of batch `b`.
pub open spec fn batch_start_of(b: nat, batch_size: nat) -> nat {
    b * batch_size
}

/// One past the last offset of batch `b`: the batch is clamped to `total`.
pub open spec fn batch_end_of(b: nat, batch_size: nat, total: nat) -> nat {
    if batch_start_of(b, batch_size) + batch_size <= total {
        batch_start_of(b, batch_size) + batch_size
    } else {
        total
    }
}

/// Whether offset `o` falls into batch `b`.
pub open spec fn in_batch(o: nat, b: nat, batch_size: nat, total: nat) -> bool {
    batch_start_of(b, batch_size) <= o < batch_end_of(b, batch_size, total)
}

/// The rounded-up quotient by cases on the remainder; no batch is planned
/// exactly when there is no record.
pub proof fn lemma_num_batches_cases(total: nat, batch_size: nat)
    requires
        batch_size > 0,
    ensures
        total % batch_size == 0 ==> num_batches_of(total, batch_size) == total / batch_size,
        total % batch_size != 0 ==> num_batches_of(total, batch_size) == total / batch_size + 1,
        num_batches_of(total, batch_size) == 0 <==> total == 0,
{
    let t: int = total as int;
    let d: int = batch_size as int;
    let q: int = t / d;
    let r: int = t % d;
    lemma_fundamental_div_mod(t, d);
    lemma_mod_bound(t, d);
    lemma_mul_is_commutative(d, q);
    if r == 0 {
        // t + d - 1 == d * q + (d - 1)
        lemma_fundamental_div_mod_converse(t + d - 1, d, q, d - 1);
    } else {
        // t + d - 1 == d * (q + 1) + (r - 1)
        lemma_mul_is_distributive_add(d, q, 1);
        lemma_fundamental_div_mod_converse(t + d - 1, d, q + 1, r - 1);
    }
    lemma_div_pos_is_pos(t, d);
    if q == 0 {
        assert(d * q == 0);
    } else {
        lemma_mul_strictly_positive(d, q);
    }
}

/// Every batch index below the batch count starts inside the run.
pub proof fn lemma_batch_starts_inside(b: nat, total: nat, batch_size: nat)
    requires
        batch_size > 0,
    ensures
        b < num_batches_of(total, batch_size) <==> batch_start_of(b, batch_size) < total,
{
    let t: int = total as int;
    let d: int = batch_size as int;
    let q: int = t / d;
    let r: int = t % d;
    lemma_num_batches_cases(total, batch_size);
    lemma_fundamental_div_mod(t, d);
    lemma_mod_bound(t, d);
    lemma_mul_is_commutative(d, q);
    lemma_mul_is_commutative(b as int, d);
    if (b as int) < q {
        lemma_mul_inequality(b as int + 1, q, d);
        lemma_mul_is_distributive_add_other_way(d, b as int, 1);
        assert(b * d + d <= q * d);
    } else {
        lemma_mul_inequality(q, b as int, d);
        assert(q * d <= b * d);
        if b as int > q {
            lemma_mul_inequality(q + 1, b as int, d);
            lemma_mul_is_distributive_add_other_way(d, q, 1);
            assert(q * d + d <= b * d);
        }
    }
}

/// The batches cut `[0, total)` into consecutive, non-empty ranges of at most
/// `batch_size` offsets: the first starts at 0, each ends where the next one
/// starts, and the last ends at `total`.
pub proof fn lemma_batches_are_consecutive(total: nat, batch_size: nat, b: nat)
    requires
        batch_size > 0,
        b < num_batches_of(total, batch_size),
    ensures
        batch_start_of(0, batch_size) == 0,
        batch_start_of(b, batch_size) < batch_end_of(b, batch_size, total) <= total,
        batch_end_of(b, batch_size, total) - batch_start_of(b, batch_size) <= batch_size,
        b + 1 < num_batches_of(total, batch_size) ==> batch_end_of(b, batch_size, total)
            == batch_start_of(b + 1, batch_size),
        b + 1 == num_batches_of(total, batch_size) ==> batch_end_of(b, batch_size, total) == total,
{
    lemma_batch_starts_inside(b, total, batch_size);
    lemma_batch_starts_inside(b + 1, total, batch_size);
    lemma_mul_is_distributive_add_other_way(batch_size as int, b as int, 1);
    assert(batch_start_of(b + 1, batch_size) == batch_start_of(b, batch_size) + batch_size);
}

/// Every offset of the run lies in exactly one batch, the one with index
/// `o / batch_size`; no batch holds an offset outside the run.
pub proof fn lemma_batches_partition(total: nat, batch_size: nat, o: nat, b: nat)
    requires
        batch_size > 0,
    ensures
        (b < num_batches_of(total, batch_size) && in_batch(o, b, batch_size, total)) <==> (o
            < total && b == o / batch_size),
{
    let d: int = batch_size as int;
    lemma_batch_starts_inside(b, total, batch_size);
    lemma_mul_is_commutative(b as int, d);
    lemma_fundamental_div_mod(o as int, d);
    lemma_mod_bound(o as int, d);
    if b * d <= o < b * d + d {
        lemma_fundamental_div_mod_converse(o as int, d, b as int, o - b * d);
    }
    if b == o / batch_size {
        assert(b * d <= o < b * d + d);
    }
}

/// The last batch holds `total % batch_size` records when that is not zero,
/// and a full `batch_size` otherwise.
pub proof fn lemma_final_batch_size(total: nat, batch_size: nat)
    requires
        batch_size > 0,
        total > 0,
    ensures
        num_batches_of(total, batch_size) >= 1,
        ({
            let last = (num_batches_of(total, batch_size) - 1) as nat;
            batch_end_of(last, batch_size, total) - batch_start_of(last, batch_size) == (if total
                % batch_size != 0 {
                total % batch_size
            } else {
                batch_size
            })
        }),
{
    let t: int = total as int;
    let d: int = batch_size as int;
    let q: int = t / d;
    lemma_num_batches_cases(total, batch_size);
    lemma_fundamental_div_mod(t, d);
    lemma_mod_bound(t, d);
    lemma_mul_is_commutative(d, q);
    let last: nat = (num_batches_of(total, batch_size) - 1) as nat;
    lemma_batches_are_consecutive(total, batch_size, last);
    if total % batch_size == 0 {
        lemma_mul_is_distributive_add_other_way(d, q - 1, 1);
        assert((q - 1) * d + d == q * d);
    }
}

/// A quotient with a remainder is smaller than its dividend.
proof fn lemma_quotient_below_dividend(x: int, d: int)
    requires
        0 <= x,
        0 < d,
        x % d != 0,
    ensures
        x / d < x,
{
    lemma_fundamental_div_mod(x, d);
    lemma_mod_bound(x, d);
    if d == 1 {
        assert(x % 1 == 0);
    } else if x / d > 0 {
        lemma_div_is_strictly_smaller(x, d);
    }
}

/// Total number of records for `count` millions, or `None` when the offsets
/// would not fit a signed 64-bit integer.
pub fn total_records(count: usize) -> (total: Option<u64>)
    ensures
        total_records_of(count as nat) <= MAX_RECORDS ==> total == Some(
            total_records_of(count as nat) as u64,
        ),
        total_records_of(count as nat) > MAX_RECORDS ==> total is None,
{
    if count as u64 <= MAX_RECORDS / RECORDS_PER_UNIT {
        Some(count as u64 * RECORDS_PER_UNIT)
    } else {
        None
    }
}

/// Number of batches needed for `total` records.
pub fn num_batches(total: u64, batch_size: u16) -> (n: u64)
    requires
        batch_size > 0,
    ensures
        n == num_batches_of(total as nat, batch_size as nat),
{
    proof {
        lemma_num_batches_cases(total as nat, batch_size as nat);
    }
    let whole: u64 = total / (batch_size as u64);
    if total % (batch_size as u64) == 0 {
        whole
    } else {
        assert(whole < u64::MAX) by {
            lemma_quotient_below_dividend(total as int, batch_size as int);
        }
        whole + 1
    }
}

/// The offset range `[start, end)` of batch `b`.
pub fn batch_bounds(b: u64, batch_size: u16, total: u64) -> (range: (u64, u64))
    requires
        batch_size > 0,
        b < num_batches_of(total as nat, batch_size as nat),
    ensures
        range.0 == batch_start_of(b as nat, batch_size as nat),
        range.1 == batch_end_of(b as nat, batch_size as nat, total as nat),
{
    proof {
        lemma_batch_starts_inside(b as nat, total as nat, batch_size as nat);
    }
    let start: u64 = b * (batch_size as u64);
    let end: u64 = if total - start < batch_size as u64 {
        total
    } else {
        start + batch_size as u64
    };
    (start, end)
}

} // verus!
