//! Summing token usage over the steps of a run.

use vstd::prelude::*;
use crate::message::{InputTokens, OutputTokens, Usage};

verus! {

/// `total` plus `value`, where a missing value adds nothing and a missing
/// total counts as zero.
pub open spec fn count_plus(total: Option<u64>, value: Option<u64>) -> Option<int> {
    match value {
        None => match total {
            Some(t) => Some(t as int),
            None => None,
        },
        Some(v) => Some(
            match total {
                Some(t) => t as int,
                None => 0,
            } + v,
        ),
    }
}

/// The count fits in a `u64` (or is missing).
pub open spec fn count_fits(c: Option<int>) -> bool {
    match c {
        Some(n) => 0 <= n <= u64::MAX,
        None => true,
    }
}

/// The count as held in a `u64` field.
pub open spec fn count_value(c: Option<int>) -> Option<u64> {
    match c {
        Some(n) => Some(n as u64),
        None => None,
    }
}

/// Every count of `total + usage` fits in a `u64`.
pub open spec fn usage_sum_fits(total: Usage, usage: Usage) -> bool {
    &&& count_fits(count_plus(total.input_tokens.total, usage.input_tokens.total))
    &&& count_fits(count_plus(total.input_tokens.no_cache, usage.input_tokens.no_cache))
    &&& count_fits(count_plus(total.input_tokens.cache_read, usage.input_tokens.cache_read))
    &&& count_fits(count_plus(total.input_tokens.cache_write, usage.input_tokens.cache_write))
    &&& count_fits(count_plus(total.output_tokens.total, usage.output_tokens.total))
    &&& count_fits(count_plus(total.output_tokens.text, usage.output_tokens.text))
    &&& count_fits(count_plus(total.output_tokens.reasoning, usage.output_tokens.reasoning))
}

/// `total + usage`, count by count.
pub open spec fn usage_plus(total: Usage, usage: Usage) -> Usage {
    Usage {
        input_tokens: InputTokens {
            total: count_value(count_plus(total.input_tokens.total, usage.input_tokens.total)),
            no_cache: count_value(count_plus(total.input_tokens.no_cache, usage.input_tokens.no_cache)),
            cache_read: count_value(count_plus(total.input_tokens.cache_read, usage.input_tokens.cache_read)),
            cache_write: count_value(count_plus(total.input_tokens.cache_write, usage.input_tokens.cache_write)),
        },
        output_tokens: OutputTokens {
            total: count_value(count_plus(total.output_tokens.total, usage.output_tokens.total)),
            text: count_value(count_plus(total.output_tokens.text, usage.output_tokens.text)),
            reasoning: count_value(count_plus(total.output_tokens.reasoning, usage.output_tokens.reasoning)),
        },
    }
}

/// Adds `value` into `total`; a missing value leaves the total as it is,
/// a missing total counts as zero.
pub fn add(total: &mut Option<u64>, value: Option<u64>)
    requires
        count_fits(count_plus(*old(total), value)),
    ensures
        *final(total) == count_value(count_plus(*old(total), value)),
{
    if let Some(value) = value {
        let base: u64 = match *total {
            Some(t) => t,
            None => 0,
        };
        *total = Some(base + value);
    }
}

/// Adds `usage` into `total`, count by count.
pub fn add_usage(total: &mut Usage, usage: &Usage)
    requires
        usage_sum_fits(*old(total), *usage),
    ensures
        *final(total) == usage_plus(*old(total), *usage),
{
    self::add(&mut total.input_tokens.total, usage.input_tokens.total);
    self::add(&mut total.input_tokens.no_cache, usage.input_tokens.no_cache);
    self::add(&mut total.input_tokens.cache_read, usage.input_tokens.cache_read);
    self::add(&mut total.input_tokens.cache_write, usage.input_tokens.cache_write);
    self::add(&mut total.output_tokens.total, usage.output_tokens.total);
    self::add(&mut total.output_tokens.text, usage.output_tokens.text);
    self::add(&mut total.output_tokens.reasoning, usage.output_tokens.reasoning);
}

/// Adding a count that the provider did not report leaves the total as it
/// was; adding a reported count to a missing total gives that count; adding
/// two reported counts gives their sum.
pub proof fn law_count_sum(total: Option<u64>, value: Option<u64>)
    ensures
        value is None ==> count_value(count_plus(total, value)) == total,
        (value is Some && total is None) ==> count_plus(total, value) == Some(value->0 as int),
        (value is Some && total is Some) ==> count_plus(total, value) == Some(total->0 + value->0),
{
}

/// Adding a usage whose counts are all missing leaves the total as it was,
/// count by count: earlier steps' counts are never lost.
pub proof fn law_empty_usage_adds_nothing(total: Usage)
    ensures
        usage_plus(total, Usage::spec_empty()) == total,
{
}

/// Summing two usages keeps each count the earlier total reported when the
/// later usage reports none, and adds reported counts.
pub proof fn law_usage_sum_by_count(total: Usage, usage: Usage)
    requires
        usage_sum_fits(total, usage),
    ensures
        usage.input_tokens.total is None ==> usage_plus(total, usage).input_tokens.total == total.input_tokens.total,
        usage.output_tokens.total is None ==> usage_plus(total, usage).output_tokens.total == total.output_tokens.total,
        (usage.input_tokens.total is Some && total.input_tokens.total is Some) ==> usage_plus(total, usage).input_tokens.total
            == Some((total.input_tokens.total->0 + usage.input_tokens.total->0) as u64),
        (usage.output_tokens.total is Some && total.output_tokens.total is Some) ==> usage_plus(total, usage).output_tokens.total
            == Some((total.output_tokens.total->0 + usage.output_tokens.total->0) as u64),
        usage_plus(total, usage).input_tokens.total is None <==> (total.input_tokens.total is None && usage.input_tokens.total is None),
        usage_plus(total, usage).output_tokens.total is None <==> (total.output_tokens.total is None && usage.output_tokens.total is None),
{
}

/// The sum of a sequence of usages, starting from no counts.
pub open spec fn usage_total(s: Seq<Usage>) -> Usage
    decreases s.len(),
{
    if s.len() == 0 {
        Usage::spec_empty()
    } else {
        usage_plus(usage_total(s.drop_last()), s.last())
    }
}

} // verus!
