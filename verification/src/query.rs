//! The two-phase query: the caller asks the driver for a capacity, hands it a
//! list of that capacity to fill, and the driver reports how many entries it
//! wrote.

use vstd::prelude::*;
use crate::bindings::VAStatus;
use crate::status::VaError;
use crate::status::va_check;

verus! {

/// The number of entries to allocate for a driver that announced at most
/// `max_entries` of them.
pub open spec fn capacity_for(max_entries: int) -> nat {
    if max_entries < 0 {
        0
    } else {
        max_entries as nat
    }
}

/// How many of `capacity` entries count, when the driver reported `count`.
pub open spec fn reported_len(capacity: nat, count: int) -> nat {
    if count < 0 {
        0
    } else if count > capacity {
        capacity
    } else {
        count as nat
    }
}

/// The entries that the driver reported: the first `count` of `entries`.
pub open spec fn reported<T>(entries: Seq<T>, count: int) -> Seq<T> {
    entries.take(reported_len(entries.len(), count) as int)
}

/// The capacity to allocate before the second call of a query.
pub fn query_capacity(max_entries: i32) -> (capacity: usize)
    ensures
        capacity == capacity_for(max_entries as int),
{
    if max_entries < 0 {
        0
    } else {
        max_entries as usize
    }
}

/// The first `count` of `entries`, or all of them if there are fewer.
pub fn first_entries<T>(entries: Vec<T>, count: usize) -> (kept: Vec<T>)
    ensures
        kept@ == reported(entries@, count as int),
{
    let mut kept = entries;
    kept.truncate(count);
    assert(kept@ =~= reported(entries@, count as int));
    kept
}

/// Ends a two-phase query. `entries` is the list that the driver was given
/// to fill, `status` what the second call returned and `count` the number of
/// entries it reported. Fails with the status if it is not success, and
/// returns the first `count` entries otherwise.
pub fn query_result<T>(status: VAStatus, entries: Vec<T>, count: i32) -> (r: Result<
    Vec<T>,
    VaError,
>)
    ensures
        r is Ok <==> status == 0,
        r matches Err(e) ==> e.code() == status,
        r matches Ok(v) ==> v@ == reported(entries@, count as int),
{
    match va_check(status) {
        Err(e) => Err(e),
        Ok(()) => {
            if count < 0 {
                Ok(first_entries(entries, 0))
            } else {
                Ok(first_entries(entries, count as usize))
            }
        },
    }
}

/// The list that a query returns is as long as the count that the driver
/// reported in its second call, whenever that count is within the capacity
/// asked for in the first; it is never longer than that capacity, and it
/// holds the entries that the driver wrote, in their order.
pub proof fn lemma_query_round_trip<T>(entries: Seq<T>, count: int)
    ensures
        reported(entries, count).len() <= entries.len(),
        0 <= count <= entries.len() ==> reported(entries, count).len() == count,
        forall|i: int|
            0 <= i < reported(entries, count).len() ==> #[trigger] reported(entries, count)[i]
                == entries[i],
{
}

} // verus!
