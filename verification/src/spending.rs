//! Rolling spending limits: what was spent is accumulated per day and per
//! month, and a transfer is held against the configured caps.
//!
//! A day is 86400 seconds and a month is 30 days, counted from time zero. The
//! months are not calendar months.

use std::collections::HashMap;
use vstd::prelude::*;

verus! {

broadcast use vstd::std_specs::hash::group_hash_axioms;

/// Seconds in one day bucket.
pub const SECONDS_PER_DAY: u64 = 86400;

/// Days in one month bucket.
pub const DAYS_PER_MONTH: u64 = 30;

/// The day that a timestamp falls on.
pub open spec fn day_of(now: u64) -> u64 {
    now / 86400
}

/// The month that a timestamp falls in.
pub open spec fn month_of(now: u64) -> u64 {
    (now / 86400) / 30
}

/// What a bucket has accumulated; a bucket that was never written holds zero.
pub open spec fn spent_in(buckets: Map<u64, i128>, bucket: u64) -> i128 {
    if buckets.contains_key(bucket) {
        buckets[bucket]
    } else {
        0
    }
}

/// Whether `amount` on top of `spent` goes beyond `limit`.
pub open spec fn exceeds(spent: i128, amount: i128, limit: i128) -> bool {
    spent + amount > limit
}

/// Whether a transfer of `amount` at `now` stays within both caps.
pub open spec fn within_limits(
    daily: Map<u64, i128>,
    monthly: Map<u64, i128>,
    daily_limit: i128,
    monthly_limit: i128,
    amount: i128,
    now: u64,
) -> bool {
    &&& !exceeds(spent_in(daily, day_of(now)), amount, daily_limit)
    &&& !exceeds(spent_in(monthly, month_of(now)), amount, monthly_limit)
}

/// Whether `amount` can be added to a bucket without leaving the range of
/// the machine integers.
pub open spec fn bucket_fits(buckets: Map<u64, i128>, bucket: u64, amount: i128) -> bool {
    i128::MIN <= spent_in(buckets, bucket) + amount <= i128::MAX
}

/// Whether `amount` can be recorded at `now` in both the day and the month.
pub open spec fn record_fits(
    daily: Map<u64, i128>,
    monthly: Map<u64, i128>,
    amount: i128,
    now: u64,
) -> bool {
    &&& bucket_fits(daily, day_of(now), amount)
    &&& bucket_fits(monthly, month_of(now), amount)
}

/// The buckets after `amount` was added to one of them.
pub open spec fn recorded(buckets: Map<u64, i128>, bucket: u64, amount: i128) -> Map<u64, i128> {
    buckets.insert(bucket, (spent_in(buckets, bucket) + amount) as i128)
}

/// Computes the day that a timestamp falls on.
pub fn day_bucket(now: u64) -> (day: u64)
    ensures
        day == day_of(now),
{
    now / SECONDS_PER_DAY
}

/// Computes the month that a timestamp falls in.
pub fn month_bucket(now: u64) -> (month: u64)
    ensures
        month == month_of(now),
{
    (now / SECONDS_PER_DAY) / DAYS_PER_MONTH
}

/// Reads what a bucket has accumulated.
pub fn spent(buckets: &HashMap<u64, i128>, bucket: u64) -> (total: i128)
    ensures
        total == spent_in(buckets@, bucket),
{
    match buckets.get(&bucket) {
        Some(total) => *total,
        None => 0,
    }
}

/// Decides whether `amount` on top of `spent` goes beyond `limit`. The sum is
/// the mathematical one: it is compared even where it would not fit in a
/// machine integer.
pub fn exceeds_limit(spent: i128, amount: i128, limit: i128) -> (over: bool)
    ensures
        over == exceeds(spent, amount, limit),
{
    match spent.checked_add(amount) {
        Some(sum) => sum > limit,
        None => amount > 0,
    }
}

/// Decides whether `amount` can be added to a bucket.
pub fn fits_bucket(buckets: &HashMap<u64, i128>, bucket: u64, amount: i128) -> (fits: bool)
    ensures
        fits == bucket_fits(buckets@, bucket, amount),
{
    spent(buckets, bucket).checked_add(amount).is_some()
}

/// Adds `amount` to a bucket, creating the bucket on its first write.
pub fn record(buckets: &mut HashMap<u64, i128>, bucket: u64, amount: i128)
    requires
        bucket_fits(old(buckets)@, bucket, amount),
    ensures
        final(buckets)@ == recorded(old(buckets)@, bucket, amount),
{
    let total: i128 = spent(buckets, bucket) + amount;
    buckets.insert(bucket, total);
}

} // verus!
