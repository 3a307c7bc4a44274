//! Shared vocabulary of the decoding contracts: how a decoder's result is
//! compared with the decoding its contract prescribes, and which failure a
//! sequence of stored items reports first.

use vstd::prelude::*;

use crate::error::{DatabaseErrorKind, DatabaseResult};

verus! {

/// `result` is the decoding `expected`: the same value, or a database error
/// carrying the same message.
pub open spec fn db_result_matches<T>(result: DatabaseResult<T>, expected: Result<T, Seq<char>>) -> bool {
    match (result, expected) {
        (Ok(value), Ok(wanted)) => value == wanted,
        (Err(error), Err(message)) => {
            &&& error.spec_kind() == DatabaseErrorKind::Database
            &&& error.spec_message() == message
        },
        _ => false,
    }
}

/// The message of the first item of `items` that fails to decode, if any.
pub open spec fn first_failure<D>(items: Seq<D>, failure: spec_fn(D) -> Option<Seq<char>>) -> Option<Seq<char>>
    decreases items.len(),
{
    if items.len() == 0 {
        None
    } else {
        match first_failure(items.drop_last(), failure) {
            Some(message) => Some(message),
            None => failure(items.last()),
        }
    }
}

/// Extending a prefix by one item reports the prefix's failure, or else that
/// item's.
pub proof fn lemma_first_failure_step<D>(items: Seq<D>, failure: spec_fn(D) -> Option<Seq<char>>, i: int)
    requires
        0 <= i < items.len(),
    ensures
        first_failure(items.take(i + 1), failure) == (match first_failure(items.take(i), failure) {
            Some(message) => Some(message),
            None => failure(items[i]),
        }),
{
    assert(items.take(i + 1).drop_last() =~= items.take(i));
}

/// Once a prefix fails, the whole sequence reports that same failure.
pub proof fn lemma_first_failure_extends<D>(items: Seq<D>, failure: spec_fn(D) -> Option<Seq<char>>, i: int)
    requires
        0 <= i <= items.len(),
        first_failure(items.take(i), failure) is Some,
    ensures
        first_failure(items, failure) == first_failure(items.take(i), failure),
    decreases items.len() - i,
{
    if i == items.len() {
        assert(items.take(i) =~= items);
    } else {
        lemma_first_failure_step(items, failure, i);
        lemma_first_failure_extends(items, failure, i + 1);
    }
}

/// A sequence with no failing item reports no failure.
pub proof fn lemma_first_failure_none<D>(items: Seq<D>, failure: spec_fn(D) -> Option<Seq<char>>)
    requires
        forall|i: int| 0 <= i < items.len() ==> failure(#[trigger] items[i]) is None,
    ensures
        first_failure(items, failure) is None,
    decreases items.len(),
{
    if items.len() > 0 {
        lemma_first_failure_none(items.drop_last(), failure);
    }
}

} // verus!
