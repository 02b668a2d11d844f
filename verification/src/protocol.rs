//! The completion protocol: each call moves from pending to completed at
//! most once, whichever of the response path, the timeout sweeper and the
//! cancellation paths acts first wins, and the losers observe a harmless
//! no-op. The laws here are stated over the registry's transition models,
//! so they cover every interleaving of those operations.

use vstd::prelude::*;

use crate::pending_call::FailureCause;
use crate::pending_call::Outcome;
use crate::pending_call::PendingCall;
use crate::registry::cancel_conn_model;
use crate::registry::cancel_model;
use crate::registry::claimed;
use crate::registry::complete_response_model;
use crate::registry::conn_cancellable;
use crate::registry::has_id;
use crate::registry::id_of;
use crate::registry::index_of_id;
use crate::registry::lemma_index_of_id;
use crate::registry::pending;
use crate::registry::sweep_entry;
use crate::registry::sweep_model;
use crate::registry::sweepable;
use crate::registry::swept_ids;
use crate::registry::unique_ids;

verus! {

/// The correlation tokens of all entries, in entry order.
pub open spec fn ids_of(s: Seq<PendingCall>) -> Seq<Seq<char>> {
    s.map_values(|call: PendingCall| id_of(call))
}

/// The outcome cell of the entry registered under `id` (meaningful only
/// when `has_id` holds and ids are unique).
pub open spec fn outcome_at(s: Seq<PendingCall>, id: Seq<char>) -> Outcome {
    s[index_of_id(s, id)].outcome
}

/// Two entry sequences with the same tokens in the same places locate any
/// registered id at the same index.
pub proof fn lemma_same_ids(s1: Seq<PendingCall>, s2: Seq<PendingCall>, id: Seq<char>)
    requires
        ids_of(s1) == ids_of(s2),
        unique_ids(s1),
        has_id(s1, id),
    ensures
        unique_ids(s2),
        has_id(s2, id),
        index_of_id(s2, id) == index_of_id(s1, id),
{
    assert(s2.len() == ids_of(s2).len());
    assert(s1.len() == ids_of(s1).len());
    assert forall|i: int| 0 <= i < s2.len() implies id_of(s2[i]) == id_of(s1[i]) by {
        assert(ids_of(s2)[i] == id_of(s2[i]));
        assert(ids_of(s1)[i] == id_of(s1[i]));
    }
    let i1 = index_of_id(s1, id);
    assert(id_of(s1[i1]) == id);
    lemma_index_of_id(s2, id, i1);
}

/// None of the completion operations moves, adds or drops an entry: each
/// leaves every correlation token at its index.
pub proof fn lemma_models_preserve_ids(
    s: Seq<PendingCall>,
    id: Seq<char>,
    payload: String,
    cause: FailureCause,
    now: u64,
    conn: Seq<char>,
)
    ensures
        ids_of(complete_response_model(s, id, payload)) == ids_of(s),
        ids_of(cancel_model(s, id, cause)) == ids_of(s),
        ids_of(sweep_model(s, now)) == ids_of(s),
        ids_of(cancel_conn_model(s, conn, cause)) == ids_of(s),
{
    assert(ids_of(complete_response_model(s, id, payload)) =~= ids_of(s));
    assert(ids_of(cancel_model(s, id, cause)) =~= ids_of(s));
    assert(ids_of(sweep_model(s, now)) =~= ids_of(s));
    assert(ids_of(cancel_conn_model(s, conn, cause)) =~= ids_of(s));
}

/// No transition out of `Completed`: once a call's outcome is set, a late
/// response frame and an explicit cancel leave the whole registry exactly
/// as it was, and a sweep or a connection fan-out leaves that call's entry
/// — its outcome in particular — untouched. A duplicate completion is
/// thereby a no-op with no observable mutation of the already-set outcome.
pub proof fn lemma_completed_is_terminal(
    s: Seq<PendingCall>,
    id: Seq<char>,
    payload: String,
    cause: FailureCause,
    now: u64,
    conn: Seq<char>,
    conn_cause: FailureCause,
)
    requires
        unique_ids(s),
        claimed(s, id),
    ensures
        complete_response_model(s, id, payload) == s,
        cancel_model(s, id, cause) == s,
        claimed(sweep_model(s, now), id),
        outcome_at(sweep_model(s, now), id) == outcome_at(s, id),
        claimed(cancel_conn_model(s, conn, conn_cause), id),
        outcome_at(cancel_conn_model(s, conn, conn_cause), id) == outcome_at(s, id),
{
    lemma_models_preserve_ids(s, id, payload, cause, now, conn);
    lemma_models_preserve_ids(s, id, payload, conn_cause, now, conn);
    let i = index_of_id(s, id);
    let swept = sweep_model(s, now);
    lemma_same_ids(s, swept, id);
    assert(swept[i] == sweep_entry(s[i], now));
    assert(swept[i] == s[i]);
    let fanned = cancel_conn_model(s, conn, conn_cause);
    lemma_same_ids(s, fanned, id);
    assert(fanned[i] == s[i]);
}

/// Exactly-once completion: a pending call is claimed by whichever of the
/// response path and the cancel path acts first; afterwards the call is
/// completed with exactly the winner's outcome, every later response frame
/// or cancel for the same id is a registry-wide no-op, and neither a sweep
/// nor a connection fan-out alters the recorded outcome. Waiters therefore
/// observe exactly one outcome per correlation id, across any interleaving
/// of the three paths.
pub proof fn lemma_exactly_once_completion(
    s: Seq<PendingCall>,
    id: Seq<char>,
    payload: String,
    late_payload: String,
    cause: FailureCause,
    late_cause: FailureCause,
    now: u64,
    conn: Seq<char>,
)
    requires
        unique_ids(s),
        pending(s, id),
    ensures
        claimed(complete_response_model(s, id, payload), id),
        outcome_at(complete_response_model(s, id, payload), id) == Outcome::Response(payload),
        complete_response_model(complete_response_model(s, id, payload), id, late_payload)
            == complete_response_model(s, id, payload),
        cancel_model(complete_response_model(s, id, payload), id, late_cause)
            == complete_response_model(s, id, payload),
        outcome_at(sweep_model(complete_response_model(s, id, payload), now), id)
            == Outcome::Response(payload),
        outcome_at(cancel_conn_model(complete_response_model(s, id, payload), conn, late_cause), id)
            == Outcome::Response(payload),
        claimed(cancel_model(s, id, cause), id),
        outcome_at(cancel_model(s, id, cause), id) == Outcome::Failure(cause),
        complete_response_model(cancel_model(s, id, cause), id, late_payload)
            == cancel_model(s, id, cause),
        cancel_model(cancel_model(s, id, cause), id, late_cause) == cancel_model(s, id, cause),
{
    lemma_models_preserve_ids(s, id, payload, cause, now, conn);
    let i = index_of_id(s, id);
    let responded = complete_response_model(s, id, payload);
    lemma_same_ids(s, responded, id);
    assert(responded[i] == s[i].with_outcome(Outcome::Response(payload)));
    lemma_completed_is_terminal(responded, id, late_payload, late_cause, now, conn, late_cause);
    let cancelled = cancel_model(s, id, cause);
    lemma_same_ids(s, cancelled, id);
    assert(cancelled[i] == s[i].with_outcome(Outcome::Failure(cause)));
    lemma_completed_is_terminal(cancelled, id, late_payload, late_cause, now, conn, late_cause);
}

/// Unmatched-frame safety: a response frame or a cancel whose correlation
/// id has no registered entry leaves the registry exactly as it was.
pub proof fn lemma_unmatched_frame_is_noop(
    s: Seq<PendingCall>,
    id: Seq<char>,
    payload: String,
    cause: FailureCause,
)
    requires
        !has_id(s, id),
    ensures
        complete_response_model(s, id, payload) == s,
        cancel_model(s, id, cause) == s,
{
}

/// A sweep at time `now` completes exactly the expired pending calls with
/// a timeout failure and touches nothing else.
pub proof fn lemma_sweep_completes_expired(s: Seq<PendingCall>, now: u64)
    ensures
        sweep_model(s, now).len() == s.len(),
        forall|i: int|
            0 <= i < s.len() && sweepable(s[i], now) ==> #[trigger] sweep_model(s, now)[i]
                == s[i].with_outcome(Outcome::Failure(FailureCause::Timeout)),
        forall|i: int|
            0 <= i < s.len() && !sweepable(s[i], now) ==> #[trigger] sweep_model(s, now)[i]
                == s[i],
        forall|i: int|
            0 <= i < s.len() && sweepable(s[i], now) ==> #[trigger] swept_ids(s, now).contains(
                id_of(s[i]),
            ),
{
    assert forall|i: int| 0 <= i < s.len() && sweepable(s[i], now) implies #[trigger] swept_ids(
        s,
        now,
    ).contains(id_of(s[i])) by {
        lemma_swept_ids_contains(s, now, i);
    }
}

/// The id of every expired pending entry appears among the swept ids.
proof fn lemma_swept_ids_contains(s: Seq<PendingCall>, now: u64, i: int)
    requires
        0 <= i < s.len(),
        sweepable(s[i], now),
    ensures
        swept_ids(s, now).contains(id_of(s[i])),
    decreases s.len(),
{
    if i == s.len() - 1 {
        assert(swept_ids(s, now).last() == id_of(s[i]));
    } else {
        lemma_swept_ids_contains(s.drop_last(), now, i);
        let rest = swept_ids(s.drop_last(), now);
        let k = choose|k: int| 0 <= k < rest.len() && rest[k] == id_of(s[i]);
        if sweepable(s.last(), now) {
            assert(swept_ids(s, now)[k] == rest[k]);
        } else {
            assert(swept_ids(s, now) == rest);
        }
    }
}

/// Cancellation fan-out: after cancelling a connection, every call that
/// was pending on it is completed with the given cause, every other entry
/// is untouched, and no pending call of that connection remains.
pub proof fn lemma_cancellation_fanout(s: Seq<PendingCall>, conn: Seq<char>, cause: FailureCause)
    ensures
        cancel_conn_model(s, conn, cause).len() == s.len(),
        forall|i: int|
            0 <= i < s.len() && conn_cancellable(s[i], conn) ==> #[trigger] cancel_conn_model(
                s,
                conn,
                cause,
            )[i] == s[i].with_outcome(Outcome::Failure(cause)),
        forall|i: int|
            0 <= i < s.len() && !conn_cancellable(s[i], conn) ==> #[trigger] cancel_conn_model(
                s,
                conn,
                cause,
            )[i] == s[i],
        forall|i: int|
            0 <= i < s.len() && #[trigger] cancel_conn_model(s, conn, cause)[i].connection_id@
                == conn ==> cancel_conn_model(s, conn, cause)[i].outcome.is_set(),
{
}

/// Consuming an outcome removes the call for good: once the waiter has
/// taken it, the correlation id is no longer registered, so a second take
/// finds nothing — the outcome value is read exactly once.
pub proof fn lemma_outcome_consumed_once(s: Seq<PendingCall>, id: Seq<char>)
    requires
        unique_ids(s),
        has_id(s, id),
    ensures
        !has_id(s.remove(index_of_id(s, id)), id),
{
    let i = index_of_id(s, id);
    let r = s.remove(i);
    assert forall|j: int| 0 <= j < r.len() implies id_of(r[j]) != id by {
        let j0 = if j < i {
            j
        } else {
            j + 1
        };
        assert(r[j] == s[j0]);
    }
}

/// Sweep instants whose gaps are bounded by `interval`: each instant
/// follows its predecessor by at most that much.
pub open spec fn gaps_bounded(times: Seq<int>, interval: int) -> bool
    decreases times.len(),
{
    times.len() <= 1 || (times[1] <= times[0] + interval && gaps_bounded(times.skip(1), interval))
}

/// Bounded liveness of the sweeper's schedule: if sweeps run with gaps of
/// at most `interval`, starting no later than a call's deadline and still
/// running after it, then some sweep falls within `interval` after the
/// deadline — the instant at which, by `lemma_sweep_completes_expired`,
/// a never-answered call is completed with a timeout failure. A call with
/// timeout `T` thus completes no later than `T + interval` past creation.
/// Bounded liveness, end to end: a pending call whose deadline the
/// sweeper's schedule straddles is completed with a timeout failure by
/// some sweep at most `interval` past its deadline. A call registered
/// with timeout `T` that never receives a response is therefore completed
/// no later than `T + interval` after its creation.
pub proof fn lemma_bounded_liveness(
    s: Seq<PendingCall>,
    id: Seq<char>,
    interval: int,
    times: Seq<int>,
)
    requires
        unique_ids(s),
        pending(s, id),
        interval >= 0,
        times.len() >= 1,
        gaps_bounded(times, interval),
        forall|k: int| 0 <= k < times.len() ==> 0 <= #[trigger] times[k] <= u64::MAX,
        times[0] <= s[index_of_id(s, id)].deadline(),
        times[times.len() - 1] > s[index_of_id(s, id)].deadline(),
    ensures
        exists|k: int|
            0 <= k < times.len() && #[trigger] times[k] <= s[index_of_id(s, id)].deadline()
                + interval && claimed(sweep_model(s, times[k] as u64), id) && outcome_at(
                sweep_model(s, times[k] as u64),
                id,
            ) == Outcome::Failure(FailureCause::Timeout),
{
    let i = index_of_id(s, id);
    let deadline = s[i].deadline();
    lemma_sweep_schedule(deadline, interval, times);
    let k = choose|k: int|
        0 <= k < times.len() && #[trigger] times[k] > deadline && times[k] <= deadline + interval;
    let now = times[k] as u64;
    assert(now == times[k]);
    assert(sweepable(s[i], now));
    let swept = sweep_model(s, now);
    lemma_models_preserve_ids(s, id, s[i].correlation_id, FailureCause::Timeout, now, id);
    lemma_same_ids(s, swept, id);
    assert(swept[i] == sweep_entry(s[i], now));
    assert(outcome_at(swept, id) == Outcome::Failure(FailureCause::Timeout));
}

pub proof fn lemma_sweep_schedule(deadline: int, interval: int, times: Seq<int>)
    requires
        interval >= 0,
        times.len() >= 1,
        gaps_bounded(times, interval),
        times[0] <= deadline,
        times[times.len() - 1] > deadline,
    ensures
        exists|k: int|
            0 <= k < times.len() && #[trigger] times[k] > deadline && times[k] <= deadline
                + interval,
    decreases times.len(),
{
    assert(times.len() >= 2);
    if times[1] > deadline {
        assert(times[1] <= times[0] + interval);
        assert(times[1] > deadline && times[1] <= deadline + interval);
    } else {
        let rest = times.skip(1);
        assert(rest[0] == times[1]);
        assert(rest[rest.len() - 1] == times[times.len() - 1]);
        lemma_sweep_schedule(deadline, interval, rest);
        let k = choose|k: int|
            0 <= k < rest.len() && #[trigger] rest[k] > deadline && rest[k] <= deadline + interval;
        assert(times[k + 1] == rest[k]);
        assert(times[k + 1] > deadline && times[k + 1] <= deadline + interval);
    }
}

} // verus!
