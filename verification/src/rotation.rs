//! The rotation engine: which destination is active at a given instant.

use vstd::prelude::*;
use vstd::arithmetic::div_mod::{
    lemma_add_mod_noop,
    lemma_basic_div,
    lemma_div_plus_one,
    lemma_hoist_over_denominator,
    lemma_mod_add_multiples_vanish,
    lemma_small_mod,
};
use crate::error::ContractError;

verus! {

/// Nanoseconds in one second.
pub const NANOS_PER_SECOND: u64 = 1_000_000_000;

/// The number of whole intervals that have elapsed at `current` since `start`.
pub open spec fn rotation_bucket(current: int, start: int, interval_nanos: int) -> int {
    (current - start) / interval_nanos
}

/// What the selection yields on each input: the guard on the start of the
/// cycle comes first, then the conversion of the interval to nanoseconds, then
/// the division and the remainder.
pub open spec fn spec_select_active_index(
    current_instant: int,
    cycle_start_instant: int,
    interval_seconds: int,
    destination_count: int,
) -> Result<int, ContractError> {
    if current_instant < cycle_start_instant {
        Err(ContractError::CycleNotStarted)
    } else if interval_seconds * NANOS_PER_SECOND > u64::MAX {
        Err(ContractError::Overflow)
    } else if interval_seconds <= 0 || destination_count <= 0 {
        Err(ContractError::DivideByZero)
    } else {
        Ok(
            rotation_bucket(
                current_instant,
                cycle_start_instant,
                interval_seconds * NANOS_PER_SECOND,
            ) % destination_count,
        )
    }
}

/// Whether the executable result `r` is the outcome `outcome` of the model.
pub open spec fn is_selection(
    r: Result<usize, ContractError>,
    outcome: Result<int, ContractError>,
) -> bool {
    match r {
        Ok(index) => outcome == Ok::<int, ContractError>(index as int),
        Err(e) => outcome == Err::<int, ContractError>(e),
    }
}

/// Selects the slot of the destination that is active at `current_instant`.
///
/// Both instants are nanoseconds since the Unix epoch. The function reads no
/// clock and no state: the result depends on the four arguments alone.
pub fn select_active_index(
    current_instant: u64,
    cycle_start_instant: u64,
    interval_seconds: u64,
    destination_count: usize,
) -> (r: Result<usize, ContractError>)
    ensures
        is_selection(
            r,
            spec_select_active_index(
                current_instant as int,
                cycle_start_instant as int,
                interval_seconds as int,
                destination_count as int,
            ),
        ),
        r matches Ok(index) ==> index < destination_count,
{
    if current_instant < cycle_start_instant {
        return Err(ContractError::CycleNotStarted);
    }
    let interval_nanos: u64 = match interval_seconds.checked_mul(NANOS_PER_SECOND) {
        Some(n) => n,
        None => {
            return Err(ContractError::Overflow);
        },
    };
    let elapsed: u64 = match current_instant.checked_sub(cycle_start_instant) {
        Some(n) => n,
        None => {
            return Err(ContractError::Overflow);
        },
    };
    let bucket: u64 = match elapsed.checked_div(interval_nanos) {
        Some(n) => n,
        None => {
            return Err(ContractError::DivideByZero);
        },
    };
    let index: u64 = match bucket.checked_rem(destination_count as u64) {
        Some(n) => n,
        None => {
            return Err(ContractError::DivideByZero);
        },
    };
    Ok(index as usize)
}

/// Selection is a function of its inputs: two results that both meet the
/// contract of `select_active_index` on the same inputs are the same result.
pub proof fn lemma_selection_is_deterministic(
    first: Result<usize, ContractError>,
    second: Result<usize, ContractError>,
    current_instant: u64,
    cycle_start_instant: u64,
    interval_seconds: u64,
    destination_count: usize,
)
    requires
        is_selection(
            first,
            spec_select_active_index(
                current_instant as int,
                cycle_start_instant as int,
                interval_seconds as int,
                destination_count as int,
            ),
        ),
        is_selection(
            second,
            spec_select_active_index(
                current_instant as int,
                cycle_start_instant as int,
                interval_seconds as int,
                destination_count as int,
            ),
        ),
    ensures
        first == second,
{
}

/// An instant before the start of the cycle selects nothing: the outcome is
/// `CycleNotStarted`, whatever the interval and the destinations are.
pub proof fn lemma_not_started_before_cycle_start(
    current_instant: int,
    cycle_start_instant: int,
    interval_seconds: int,
    destination_count: int,
)
    requires
        current_instant < cycle_start_instant,
    ensures
        spec_select_active_index(
            current_instant,
            cycle_start_instant,
            interval_seconds,
            destination_count,
        ) == Err::<int, ContractError>(ContractError::CycleNotStarted),
{
}

/// Once the cycle has started, a positive interval whose nanoseconds fit a
/// `u64` and a list that is not empty always select a slot of the list.
pub proof fn lemma_started_cycle_selects_a_slot(
    current_instant: int,
    cycle_start_instant: int,
    interval_seconds: int,
    destination_count: int,
)
    requires
        cycle_start_instant <= current_instant,
        0 < interval_seconds,
        interval_seconds * NANOS_PER_SECOND <= u64::MAX,
        0 < destination_count,
    ensures
        spec_select_active_index(
            current_instant,
            cycle_start_instant,
            interval_seconds,
            destination_count,
        ) matches Ok(index) && 0 <= index < destination_count,
{
}

/// Throughout the first interval of the cycle the first destination is
/// active.
pub proof fn lemma_first_interval_selects_first_slot(
    current_instant: int,
    cycle_start_instant: int,
    interval_seconds: int,
    destination_count: int,
)
    requires
        0 < interval_seconds,
        interval_seconds * NANOS_PER_SECOND <= u64::MAX,
        0 < destination_count,
        cycle_start_instant <= current_instant < cycle_start_instant + interval_seconds
            * NANOS_PER_SECOND,
    ensures
        spec_select_active_index(
            current_instant,
            cycle_start_instant,
            interval_seconds,
            destination_count,
        ) == Ok::<int, ContractError>(0),
{
    let width = interval_seconds * NANOS_PER_SECOND;
    lemma_basic_div(current_instant - cycle_start_instant, width);
    lemma_small_mod(0, destination_count as nat);
}

/// One interval later the next destination is active, and after the last
/// destination the first one again.
pub proof fn lemma_next_interval_selects_next_slot(
    current_instant: int,
    cycle_start_instant: int,
    interval_seconds: int,
    destination_count: int,
)
    requires
        0 < interval_seconds,
        interval_seconds * NANOS_PER_SECOND <= u64::MAX,
        0 < destination_count,
        cycle_start_instant <= current_instant,
    ensures
        spec_select_active_index(
            current_instant,
            cycle_start_instant,
            interval_seconds,
            destination_count,
        ) matches Ok(index) && spec_select_active_index(
            current_instant + interval_seconds * NANOS_PER_SECOND,
            cycle_start_instant,
            interval_seconds,
            destination_count,
        ) == Ok::<int, ContractError>((index + 1) % destination_count),
{
    let width = interval_seconds * NANOS_PER_SECOND;
    let elapsed = current_instant - cycle_start_instant;
    let bucket = elapsed / width;
    assert((elapsed + width) / width == bucket + 1) by {
        lemma_div_plus_one(elapsed, width);
    }
    assert((bucket + 1) % destination_count == (bucket % destination_count + 1)
        % destination_count) by {
        lemma_add_mod_noop(bucket, 1, destination_count);
        lemma_add_mod_noop(bucket % destination_count, 1, destination_count);
        lemma_small_mod((bucket % destination_count) as nat, destination_count as nat);
    }
}

/// The rotation has a period of as many intervals as there are destinations:
/// one full round later the same destination is active.
pub proof fn lemma_full_round_selects_same_slot(
    current_instant: int,
    cycle_start_instant: int,
    interval_seconds: int,
    destination_count: int,
)
    requires
        0 < interval_seconds,
        interval_seconds * NANOS_PER_SECOND <= u64::MAX,
        0 < destination_count,
        cycle_start_instant <= current_instant,
    ensures
        spec_select_active_index(
            current_instant + destination_count * (interval_seconds * NANOS_PER_SECOND),
            cycle_start_instant,
            interval_seconds,
            destination_count,
        ) == spec_select_active_index(
            current_instant,
            cycle_start_instant,
            interval_seconds,
            destination_count,
        ),
{
    let width = interval_seconds * NANOS_PER_SECOND;
    let elapsed = current_instant - cycle_start_instant;
    let bucket = elapsed / width;
    assert((elapsed + destination_count * width) / width == bucket + destination_count) by {
        lemma_hoist_over_denominator(elapsed, destination_count, width as nat);
    }
    assert((bucket + destination_count) % destination_count == bucket % destination_count) by {
        lemma_mod_add_multiples_vanish(bucket, destination_count);
    }
    assert(0 <= destination_count * width) by (nonlinear_arith)
        requires
            0 < destination_count,
            0 < width,
    ;
    assert(current_instant + destination_count * width - cycle_start_instant == elapsed
        + destination_count * width);
}

} // verus!
