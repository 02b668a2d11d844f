//! The correlation registry: the single point of truth for which calls are
//! outstanding. It maps correlation identifiers to pending calls and offers
//! the atomic register / complete-and-remove / cancel / sweep operations
//! around which the completion protocol is built.

use vstd::prelude::*;

use crate::pending_call::FailureCause;
use crate::pending_call::Outcome;
use crate::pending_call::PendingCall;
use crate::strutil::views_of;

verus! {

/// Registration failures.
#[derive(Clone, Copy, PartialEq, Eq, Structural, Debug)]
pub enum RegistryError {
    /// A call with the same correlation id is already outstanding; the
    /// caller must retry the send with a fresh id.
    DuplicateId,
}

/// The correlation token of an entry, as a sequence of characters.
pub open spec fn id_of(call: PendingCall) -> Seq<char> {
    call.correlation_id@
}

/// Whether some entry carries the given correlation id.
pub open spec fn has_id(s: Seq<PendingCall>, id: Seq<char>) -> bool {
    exists|i: int| 0 <= i < s.len() && id_of(s[i]) == id
}

/// The index of the entry carrying the given id (meaningful only when
/// `has_id` holds and ids are unique).
pub open spec fn index_of_id(s: Seq<PendingCall>, id: Seq<char>) -> int {
    choose|i: int| 0 <= i < s.len() && id_of(s[i]) == id
}

/// At most one entry per correlation id.
pub open spec fn unique_ids(s: Seq<PendingCall>) -> bool {
    forall|i: int, j: int|
        0 <= i < s.len() && 0 <= j < s.len() && i != j ==> id_of(s[i]) != id_of(s[j])
}

/// The id is registered and its call has not been completed yet.
pub open spec fn pending(s: Seq<PendingCall>, id: Seq<char>) -> bool {
    has_id(s, id) && !s[index_of_id(s, id)].outcome.is_set()
}

/// The id is registered and its call has already been completed (the entry
/// stays until the waiting side consumes the outcome).
pub open spec fn claimed(s: Seq<PendingCall>, id: Seq<char>) -> bool {
    has_id(s, id) && s[index_of_id(s, id)].outcome.is_set()
}

/// What delivering a response frame for `id` does to the entries: the
/// pending entry with that id (if any) becomes `Response(payload)`; in
/// every other case — unknown id, or an entry already completed — the
/// entries are left exactly as they were.
pub open spec fn complete_response_model(
    s: Seq<PendingCall>,
    id: Seq<char>,
    payload: String,
) -> Seq<PendingCall> {
    if pending(s, id) {
        s.update(index_of_id(s, id), s[index_of_id(s, id)].with_outcome(Outcome::Response(payload)))
    } else {
        s
    }
}

/// What an explicit cancellation of `id` does to the entries, under the
/// same first-writer-wins rule as `complete_response_model`.
pub open spec fn cancel_model(
    s: Seq<PendingCall>,
    id: Seq<char>,
    cause: FailureCause,
) -> Seq<PendingCall> {
    if pending(s, id) {
        s.update(index_of_id(s, id), s[index_of_id(s, id)].with_outcome(Outcome::Failure(cause)))
    } else {
        s
    }
}

/// An entry the sweeper acts on: still pending, and past its deadline.
pub open spec fn sweepable(call: PendingCall, now: u64) -> bool {
    !call.outcome.is_set() && call.is_expired_at(now)
}

/// One entry after a sweep at time `now`.
pub open spec fn sweep_entry(call: PendingCall, now: u64) -> PendingCall {
    if sweepable(call, now) {
        call.with_outcome(Outcome::Failure(FailureCause::Timeout))
    } else {
        call
    }
}

/// All entries after a sweep at time `now`: every expired pending call is
/// completed with a timeout failure, everything else is untouched.
pub open spec fn sweep_model(s: Seq<PendingCall>, now: u64) -> Seq<PendingCall> {
    s.map_values(|call: PendingCall| sweep_entry(call, now))
}

/// The ids a sweep at time `now` acts on, in entry order.
pub open spec fn swept_ids(s: Seq<PendingCall>, now: u64) -> Seq<Seq<char>>
    decreases s.len(),
{
    if s.len() == 0 {
        Seq::empty()
    } else if sweepable(s.last(), now) {
        swept_ids(s.drop_last(), now).push(id_of(s.last()))
    } else {
        swept_ids(s.drop_last(), now)
    }
}

/// An entry a connection-loss cancellation acts on: still pending and
/// registered under the closed connection.
pub open spec fn conn_cancellable(call: PendingCall, connection_id: Seq<char>) -> bool {
    !call.outcome.is_set() && call.connection_id@ == connection_id
}

/// One entry after the fan-out cancellation of a connection.
pub open spec fn conn_cancel_entry(
    call: PendingCall,
    connection_id: Seq<char>,
    cause: FailureCause,
) -> PendingCall {
    if conn_cancellable(call, connection_id) {
        call.with_outcome(Outcome::Failure(cause))
    } else {
        call
    }
}

/// All entries after the fan-out cancellation of a connection: every
/// pending call on that connection is completed with `cause`, everything
/// else is untouched.
pub open spec fn cancel_conn_model(
    s: Seq<PendingCall>,
    connection_id: Seq<char>,
    cause: FailureCause,
) -> Seq<PendingCall> {
    s.map_values(|call: PendingCall| conn_cancel_entry(call, connection_id, cause))
}

/// The ids a connection-loss cancellation acts on, in entry order.
pub open spec fn conn_cancelled_ids(s: Seq<PendingCall>, connection_id: Seq<char>) -> Seq<Seq<char>>
    decreases s.len(),
{
    if s.len() == 0 {
        Seq::empty()
    } else if conn_cancellable(s.last(), connection_id) {
        conn_cancelled_ids(s.drop_last(), connection_id).push(id_of(s.last()))
    } else {
        conn_cancelled_ids(s.drop_last(), connection_id)
    }
}

/// How many entries are still pending.
pub open spec fn count_pending(s: Seq<PendingCall>) -> nat
    decreases s.len(),
{
    if s.len() == 0 {
        0
    } else if !s.last().outcome.is_set() {
        count_pending(s.drop_last()) + 1
    } else {
        count_pending(s.drop_last())
    }
}

/// With unique ids, an entry that carries `id` stands at `index_of_id`.
pub proof fn lemma_index_of_id(s: Seq<PendingCall>, id: Seq<char>, i: int)
    requires
        unique_ids(s),
        0 <= i < s.len(),
        id_of(s[i]) == id,
    ensures
        has_id(s, id),
        index_of_id(s, id) == i,
{
    assert(has_id(s, id));
    let j = index_of_id(s, id);
    assert(0 <= j < s.len() && id_of(s[j]) == id);
    if j != i {
        assert(id_of(s[i]) != id_of(s[j]));
    }
}

/// Uniqueness of ids survives removing an entry.
pub proof fn lemma_unique_ids_remove(s: Seq<PendingCall>, i: int)
    requires
        unique_ids(s),
        0 <= i < s.len(),
    ensures
        unique_ids(s.remove(i)),
{
    let r = s.remove(i);
    assert forall|a: int, b: int|
        0 <= a < r.len() && 0 <= b < r.len() && a != b implies id_of(r[a]) != id_of(r[b]) by {
        let a0 = if a < i { a } else { a + 1 };
        let b0 = if b < i { b } else { b + 1 };
        assert(r[a] == s[a0]);
        assert(r[b] == s[b0]);
    }
}

/// The in-memory mapping from correlation id to pending call. Entries are
/// added on request send and claimed by the first of response arrival,
/// timeout sweep and explicit cancel; a claimed entry stays, completed,
/// until the waiting side takes its outcome.
pub struct CorrelationRegistry {
    calls: Vec<PendingCall>,
}

impl CorrelationRegistry {
    /// The entries of the registry, in registration order.
    pub closed spec fn entries(self) -> Seq<PendingCall> {
        self.calls@
    }

    /// Well-formedness: at most one entry per correlation id.
    pub open spec fn wf(self) -> bool {
        unique_ids(self.entries())
    }

    /// An empty registry.
    pub fn new() -> (registry: CorrelationRegistry)
        ensures
            registry.wf(),
            registry.entries() == Seq::<PendingCall>::empty(),
    {
        CorrelationRegistry { calls: Vec::new() }
    }

    /// How many entries are held, completed-but-unconsumed ones included.
    pub fn len(&self) -> (n: usize)
        ensures
            n == self.entries().len(),
    {
        self.calls.len()
    }

    /// How many entries are still pending.
    pub fn pending_count(&self) -> (n: usize)
        requires
            self.wf(),
        ensures
            n == count_pending(self.entries()),
    {
        let ghost s = self.entries();
        let mut n: usize = 0;
        let mut j: usize = 0;
        let end = self.calls.len();
        while j < end
            invariant
                j <= end,
                end == s.len(),
                s == self.entries(),
                n == count_pending(s.take(j as int)),
                n <= j,
            decreases end - j,
        {
            proof {
                assert(s.take(j + 1).drop_last() =~= s.take(j as int));
                assert(s.take(j + 1).last() == s[j as int]);
            }
            if !self.calls[j].is_completed() {
                n = n + 1;
            }
            j = j + 1;
        }
        proof {
            assert(s.take(end as int) =~= s);
        }
        n
    }

    /// The index of the entry with this id, if one is held.
    fn find_index(&self, correlation_id: &str) -> (found: Option<usize>)
        requires
            self.wf(),
        ensures
            match found {
                Some(i) => i < self.entries().len() && id_of(self.entries()[i as int])
                    == correlation_id@ && index_of_id(self.entries(), correlation_id@) == i,
                None => !has_id(self.entries(), correlation_id@),
            },
    {
        let target: String = correlation_id.to_owned();
        let mut j: usize = 0;
        let end = self.calls.len();
        while j < end
            invariant
                j <= end,
                end == self.entries().len(),
                self.wf(),
                target@ == correlation_id@,
                forall|k: int| 0 <= k < j ==> id_of(self.entries()[k]) != correlation_id@,
            decreases end - j,
        {
            if self.calls[j].correlation_id == target {
                proof {
                    lemma_index_of_id(self.entries(), correlation_id@, j as int);
                }
                return Some(j);
            }
            j = j + 1;
        }
        None
    }

    /// Whether an entry with this correlation id is held.
    pub fn contains_id(&self, correlation_id: &str) -> (present: bool)
        requires
            self.wf(),
        ensures
            present == has_id(self.entries(), correlation_id@),
    {
        self.find_index(correlation_id).is_some()
    }

    /// Whether this correlation id is registered and not yet completed.
    pub fn is_pending(&self, correlation_id: &str) -> (live: bool)
        requires
            self.wf(),
        ensures
            live == pending(self.entries(), correlation_id@),
    {
        match self.find_index(correlation_id) {
            Some(i) => !self.calls[i].is_completed(),
            None => false,
        }
    }

    /// Inserts a freshly created call under its correlation id. Fails with
    /// `DuplicateId`, leaving the registry unchanged, when an entry with
    /// the same id is already held: ids are never reused while a prior
    /// call with the same id could still be outstanding.
    pub fn register(&mut self, call: PendingCall) -> (result: Result<(), RegistryError>)
        requires
            old(self).wf(),
            call.outcome is Unset,
        ensures
            final(self).wf(),
            has_id(old(self).entries(), id_of(call)) ==> result == Err::<(), RegistryError>(
                RegistryError::DuplicateId,
            ) && final(self).entries() == old(self).entries(),
            !has_id(old(self).entries(), id_of(call)) ==> result == Ok::<(), RegistryError>(())
                && final(self).entries() == old(self).entries().push(call),
    {
        if self.find_index(call.get_correlation_id()).is_some() {
            Err(RegistryError::DuplicateId)
        } else {
            let ghost s0 = self.entries();
            self.calls.push(call);
            proof {
                let s1 = self.entries();
                assert forall|i: int, j: int|
                    0 <= i < s1.len() && 0 <= j < s1.len() && i != j implies id_of(s1[i]) != id_of(
                    s1[j],
                ) by {
                    if i < s0.len() && j < s0.len() {
                        assert(id_of(s0[i]) != id_of(s0[j]));
                    } else if i < s0.len() {
                        assert(!(id_of(s0[i]) == id_of(call)));
                    } else {
                        assert(!(id_of(s0[j]) == id_of(call)));
                    }
                }
            }
            Ok(())
        }
    }

    /// Replaces the outcome of the entry at `i` if it is still unset,
    /// keeping every other entry and the entry order as they are.
    fn claim_at(&mut self, i: usize, outcome: Outcome)
        requires
            old(self).wf(),
            i < old(self).entries().len(),
            !old(self).entries()[i as int].outcome.is_set(),
            outcome.is_set(),
        ensures
            final(self).wf(),
            final(self).entries() == old(self).entries().update(
                i as int,
                old(self).entries()[i as int].with_outcome(outcome),
            ),
    {
        let ghost s0 = self.entries();
        let mut call = self.calls.remove(i);
        match outcome {
            Outcome::Response(payload) => call.complete_with_response(payload),
            Outcome::Failure(cause) => call.complete_with_failure(cause),
            Outcome::Unset => (),
        }
        self.calls.insert(i, call);
        proof {
            let updated = s0[i as int].with_outcome(outcome);
            assert(self.entries() =~= s0.update(i as int, updated));
            assert forall|a: int, b: int|
                0 <= a < self.entries().len() && 0 <= b < self.entries().len() && a != b implies
                id_of(self.entries()[a]) != id_of(self.entries()[b]) by {
                assert(id_of(s0.update(i as int, updated)[a]) == id_of(s0[a]));
                assert(id_of(s0.update(i as int, updated)[b]) == id_of(s0[b]));
            }
        }
    }

    /// Routes an inbound response frame: atomically claims and completes
    /// the pending entry registered under `correlation_id`, and reports
    /// whether one was found. A duplicate or late frame — the id unknown,
    /// or its entry already completed — is silently dropped: the registry
    /// is left exactly as it was and `false` comes back.
    pub fn complete_and_remove(&mut self, correlation_id: &str, payload: String) -> (found: bool)
        requires
            old(self).wf(),
        ensures
            final(self).wf(),
            found == pending(old(self).entries(), correlation_id@),
            final(self).entries() == complete_response_model(
                old(self).entries(),
                correlation_id@,
                payload,
            ),
    {
        match self.find_index(correlation_id) {
            Some(i) => {
                if self.calls[i].is_completed() {
                    false
                } else {
                    self.claim_at(i, Outcome::Response(payload));
                    true
                }
            },
            None => false,
        }
    }

    /// Explicit client-side abort of one call, under the same atomic
    /// claim-or-drop rule as `complete_and_remove`.
    pub fn cancel(&mut self, correlation_id: &str, cause: FailureCause) -> (found: bool)
        requires
            old(self).wf(),
        ensures
            final(self).wf(),
            found == pending(old(self).entries(), correlation_id@),
            final(self).entries() == cancel_model(old(self).entries(), correlation_id@, cause),
    {
        match self.find_index(correlation_id) {
            Some(i) => {
                if self.calls[i].is_completed() {
                    false
                } else {
                    self.claim_at(i, Outcome::Failure(cause));
                    true
                }
            },
            None => false,
        }
    }

    /// Scans all entries and completes every expired pending call with a
    /// timeout failure; the ids handled come back, in entry order, for the
    /// observability collaborator and for callback dispatch.
    pub fn sweep(&mut self, now: u64) -> (expired: Vec<String>)
        requires
            old(self).wf(),
        ensures
            final(self).wf(),
            final(self).entries() == sweep_model(old(self).entries(), now),
            views_of(expired@) == swept_ids(old(self).entries(), now),
    {
        let ghost s0 = self.entries();
        let mut expired: Vec<String> = Vec::new();
        let mut j: usize = 0;
        let end = self.calls.len();
        while j < end
            invariant
                j <= end,
                end == s0.len(),
                self.entries().len() == s0.len(),
                self.wf(),
                forall|k: int| 0 <= k < j ==> self.entries()[k] == sweep_entry(s0[k], now),
                forall|k: int| j <= k < end ==> self.entries()[k] == s0[k],
                views_of(expired@) == swept_ids(s0.take(j as int), now),
            decreases end - j,
        {
            proof {
                assert(s0.take(j + 1).drop_last() =~= s0.take(j as int));
                assert(s0.take(j + 1).last() == s0[j as int]);
            }
            let expired_now = self.calls[j].is_expired(now);
            let live = !self.calls[j].is_completed();
            if expired_now && live {
                let id = self.calls[j].correlation_id.clone();
                self.claim_at(j, Outcome::Failure(FailureCause::Timeout));
                expired.push(id);
                proof {
                    assert(views_of(expired@) =~= swept_ids(s0.take(j + 1), now));
                }
            } else {
                proof {
                    assert(views_of(expired@) =~= swept_ids(s0.take(j + 1), now));
                }
            }
            j = j + 1;
        }
        proof {
            assert(s0.take(end as int) =~= s0);
            assert(self.entries() =~= sweep_model(s0, now));
        }
        expired
    }

    /// Connection-loss fan-out: completes every pending call registered
    /// under `connection_id` with `cause`, leaving calls of other
    /// connections and already-completed calls untouched, and reports the
    /// ids handled, in entry order.
    pub fn cancel_all_for_connection(
        &mut self,
        connection_id: &str,
        cause: FailureCause,
    ) -> (cancelled: Vec<String>)
        requires
            old(self).wf(),
        ensures
            final(self).wf(),
            final(self).entries() == cancel_conn_model(old(self).entries(), connection_id@, cause),
            views_of(cancelled@) == conn_cancelled_ids(old(self).entries(), connection_id@),
    {
        let ghost s0 = self.entries();
        let conn: String = connection_id.to_owned();
        let mut cancelled: Vec<String> = Vec::new();
        let mut j: usize = 0;
        let end = self.calls.len();
        while j < end
            invariant
                j <= end,
                end == s0.len(),
                self.entries().len() == s0.len(),
                self.wf(),
                conn@ == connection_id@,
                forall|k: int|
                    0 <= k < j ==> self.entries()[k] == conn_cancel_entry(
                        s0[k],
                        connection_id@,
                        cause,
                    ),
                forall|k: int| j <= k < end ==> self.entries()[k] == s0[k],
                views_of(cancelled@) == conn_cancelled_ids(s0.take(j as int), connection_id@),
            decreases end - j,
        {
            proof {
                assert(s0.take(j + 1).drop_last() =~= s0.take(j as int));
                assert(s0.take(j + 1).last() == s0[j as int]);
            }
            let on_conn = self.calls[j].connection_id == conn;
            let live = !self.calls[j].is_completed();
            if on_conn && live {
                let id = self.calls[j].correlation_id.clone();
                self.claim_at(j, Outcome::Failure(cause));
                cancelled.push(id);
                proof {
                    assert(views_of(cancelled@) =~= conn_cancelled_ids(
                        s0.take(j + 1),
                        connection_id@,
                    ));
                }
            } else {
                proof {
                    assert(views_of(cancelled@) =~= conn_cancelled_ids(
                        s0.take(j + 1),
                        connection_id@,
                    ));
                }
            }
            j = j + 1;
        }
        proof {
            assert(s0.take(end as int) =~= s0);
            assert(self.entries() =~= cancel_conn_model(s0, connection_id@, cause));
        }
        cancelled
    }

    /// Consumes the outcome of a completed call: the entry leaves the
    /// registry and its outcome is handed over, exactly once. A call that
    /// is unknown or still pending yields `None` and leaves the registry
    /// unchanged.
    pub fn take_outcome(&mut self, correlation_id: &str) -> (outcome: Option<Outcome>)
        requires
            old(self).wf(),
        ensures
            final(self).wf(),
            claimed(old(self).entries(), correlation_id@) ==> outcome == Some(
                old(self).entries()[index_of_id(old(self).entries(), correlation_id@)].outcome,
            ) && final(self).entries() == old(self).entries().remove(
                index_of_id(old(self).entries(), correlation_id@),
            ),
            !claimed(old(self).entries(), correlation_id@) ==> outcome is None
                && final(self).entries() == old(self).entries(),
    {
        match self.find_index(correlation_id) {
            Some(i) => {
                if self.calls[i].is_completed() {
                    proof {
                        lemma_unique_ids_remove(self.entries(), i as int);
                    }
                    let call = self.calls.remove(i);
                    Some(call.outcome)
                } else {
                    None
                }
            },
            None => None,
        }
    }
}

} // verus!
