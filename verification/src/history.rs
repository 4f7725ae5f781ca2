//! What holds of whole runs of calls on one gate.
//!
//! Calls on a gate take effect one at a time, whatever threads they come
//! from, so a run is a sequence: requests, then the one freeze by the
//! executor's builder, then more requests. The laws below are stated over
//! `request_outcome`, `word_after_request`, `word_after_freeze` and
//! `effective_count`: the functions in which the contracts of
//! `set_thread_count` and `get_thread_count` say what a call answers and
//! leaves.

use crate::gate::{
    effective_count, is_thread_count, request_outcome, word_after_freeze, word_after_request,
    LOCKED, UNSET,
};
use vstd::prelude::*;

verus! {

/// The word that a gate holds once `requests` have taken effect on it in
/// this order, the first of them on `word`.
pub open spec fn word_after(word: usize, requests: Seq<usize>) -> usize
    decreases requests.len(),
{
    if requests.len() == 0 {
        word
    } else {
        word_after_request(word_after(word, requests.drop_last()), requests.last())
    }
}

/// Whether request number `i` of `requests` is accepted, on a gate that held
/// `word` before the first of them.
pub open spec fn accepted_at(word: usize, requests: Seq<usize>, i: int) -> bool {
    request_outcome(word_after(word, requests.take(i)), requests[i]) is Some
}

/// Every request is a thread count that callers may ask for.
pub open spec fn all_thread_counts(requests: Seq<usize>) -> bool {
    forall|i: int| 0 <= i < requests.len() ==> is_thread_count(#[trigger] requests[i])
}

/// A gate that is not frozen takes every request: after a run of requests it
/// is still not frozen, and holds the last of them.
pub proof fn lemma_open_gate_keeps_last(word: usize, requests: Seq<usize>)
    requires
        word != LOCKED,
        all_thread_counts(requests),
    ensures
        word_after(word, requests) != LOCKED,
        word_after(word, requests) == if requests.len() == 0 {
            word
        } else {
            requests.last()
        },
    decreases requests.len(),
{
    if requests.len() > 0 {
        let earlier = requests.drop_last();
        assert forall|i: int| 0 <= i < earlier.len() implies is_thread_count(
            #[trigger] earlier[i],
        ) by {
            assert(earlier[i] == requests[i]);
        }
        lemma_open_gate_keeps_last(word, earlier);
        assert(is_thread_count(requests[requests.len() - 1]));
    }
}

/// A frozen gate stays frozen, whatever is asked of it.
pub proof fn lemma_frozen_gate_stays(requests: Seq<usize>)
    ensures
        word_after(LOCKED, requests) == LOCKED,
    decreases requests.len(),
{
    if requests.len() > 0 {
        lemma_frozen_gate_stays(requests.drop_last());
    }
}

/// The freeze leaves `LOCKED` whatever it found, and every request that
/// comes later is refused and leaves `LOCKED` too.
pub proof fn law_freeze_is_final(found: usize, later: Seq<usize>)
    ensures
        word_after_freeze(found) == LOCKED,
        forall|j: int|
            0 <= j < later.len() ==> !#[trigger] accepted_at(word_after_freeze(found), later, j),
        word_after(word_after_freeze(found), later) == LOCKED,
{
    lemma_frozen_gate_stays(later);
    assert forall|j: int| 0 <= j < later.len() implies !#[trigger] accepted_at(
        word_after_freeze(found),
        later,
        j,
    ) by {
        lemma_frozen_gate_stays(later.take(j));
    }
}

/// Of two requests that both take effect before the executor is built, both
/// are accepted, the second leaves its count, and the executor is built with
/// that count.
pub proof fn law_later_request_wins(start: usize, first: usize, second: usize, detected: usize)
    requires
        start != LOCKED,
        is_thread_count(first),
        is_thread_count(second),
    ensures
        accepted_at(start, seq![first, second], 0),
        accepted_at(start, seq![first, second], 1),
        word_after_request(word_after_request(start, first), second) == second,
        word_after(start, seq![first, second]) == second,
        effective_count(word_after(start, seq![first, second]), detected) == second,
{
    law_freeze_splits_requests(start, seq![first, second], Seq::empty());
}

/// A request that comes after the executor has been built is refused, and
/// its gate stays frozen: the count that the executor was built with stands.
pub proof fn law_request_after_freeze_is_refused(found: usize, n: usize)
    ensures
        request_outcome(word_after_freeze(found), n) is None,
        word_after_request(word_after_freeze(found), n) == LOCKED,
{
}

/// Where nobody asked for a count before the executor is built, it is built
/// with as many workers as the host has processing units.
pub proof fn law_unset_gate_gives_detected(detected: usize)
    ensures
        effective_count(word_after(UNSET, Seq::<usize>::empty()), detected) == detected,
{
}

/// In every order in which the requests of many threads take effect around
/// the one freeze: each request before the freeze is accepted, the freeze
/// finds the last of them (or the word from before, where there was none)
/// and builds the executor with it, and each request after the freeze is
/// refused and changes nothing.
pub proof fn law_freeze_splits_requests(start: usize, before: Seq<usize>, after: Seq<usize>)
    requires
        start != LOCKED,
        all_thread_counts(before),
    ensures
        forall|i: int| 0 <= i < before.len() ==> #[trigger] accepted_at(start, before, i),
        word_after(start, before) == if before.len() == 0 {
            start
        } else {
            before.last()
        },
        before.len() > 0 ==> forall|detected: usize|
            effective_count(word_after(start, before), detected) == before.last(),
        forall|j: int|
            0 <= j < after.len() ==> !#[trigger] accepted_at(
                word_after_freeze(word_after(start, before)),
                after,
                j,
            ),
        word_after(word_after_freeze(word_after(start, before)), after) == LOCKED,
{
    lemma_open_gate_keeps_last(start, before);
    assert forall|i: int| 0 <= i < before.len() implies #[trigger] accepted_at(
        start,
        before,
        i,
    ) by {
        let earlier = before.take(i);
        assert forall|k: int| 0 <= k < earlier.len() implies is_thread_count(
            #[trigger] earlier[k],
        ) by {
            assert(earlier[k] == before[k]);
        }
        lemma_open_gate_keeps_last(start, earlier);
    }
    if before.len() > 0 {
        assert(is_thread_count(before[before.len() - 1]));
    }
    law_freeze_is_final(word_after(start, before), after);
}

} // verus!
