//! A single-use, single-assignment completion slot for one outstanding
//! request: it holds at most one of a response payload or a failure cause,
//! plus the bookkeeping (deadline, connection scope, callback flag) that the
//! correlation registry needs.

use vstd::prelude::*;

verus! {

/// Why a pending call failed instead of receiving its response.
#[derive(Clone, Copy, PartialEq, Eq, Structural, Debug)]
pub enum FailureCause {
    /// The deadline elapsed before a response arrived.
    Timeout,
    /// The connection the request was sent on closed.
    ConnectionClosed,
    /// Any other client-side abort.
    Other,
}

/// The tri-state outcome cell of a pending call. Once it leaves `Unset` it
/// is never overwritten: every completion operation is a no-op on a cell
/// that is already set.
pub enum Outcome {
    /// No completion has happened yet.
    Unset,
    /// A matched response frame delivered this payload.
    Response(String),
    /// The call failed; the cause says why.
    Failure(FailureCause),
}

impl Outcome {
    /// Whether the cell has been assigned (terminally).
    pub open spec fn is_set(self) -> bool {
        !(self is Unset)
    }
}

/// What, if anything, must be handed to the registered callback of a call.
/// The library only decides; the surrounding runtime performs the actual
/// invocation on its own execution context.
pub enum CallbackDirective {
    /// Do not invoke the callback (none registered, the call is still
    /// pending, or the request was never successfully sent).
    Skip,
    /// Invoke the callback with this response payload and no cause.
    RespondWith(String),
    /// Invoke the callback with no response and this failure cause.
    FailWith(FailureCause),
}

/// One outstanding request awaiting its reply or timeout.
pub struct PendingCall {
    /// Token matching the request to its eventual reply frame; unique among
    /// currently outstanding calls.
    pub correlation_id: String,
    /// Scope for connection-loss cancellation fan-out.
    pub connection_id: String,
    /// Timestamp (milliseconds) at which the call was created.
    pub created_at: u64,
    /// Duration (milliseconds) after which the call is considered expired.
    pub timeout_millis: u64,
    /// Whether a completion callback is registered for this call.
    pub has_callback: bool,
    /// Whether the request frame was reported as successfully sent.
    pub send_request_ok: bool,
    /// The single-assignment completion cell.
    pub outcome: Outcome,
}

impl PendingCall {
    /// The deadline, past which the call is expired. Stated over `int` so
    /// the sum cannot wrap.
    pub open spec fn deadline(self) -> int {
        self.created_at + self.timeout_millis
    }

    /// Whether the call is expired at time `now`: strictly more than
    /// `timeout_millis` has elapsed since `created_at`.
    pub open spec fn is_expired_at(self, now: u64) -> bool {
        now > self.deadline()
    }

    /// The value `c` with its outcome cell replaced.
    pub open spec fn with_outcome(self, outcome: Outcome) -> PendingCall {
        PendingCall { outcome, ..self }
    }

    /// The directive that `callback_directive` computes: a response is
    /// handed over only when the request was successfully sent, a failure
    /// cause is always handed over, and nothing fires while the call is
    /// still pending or when no callback is registered.
    pub open spec fn spec_callback_directive(self) -> CallbackDirective {
        if !self.has_callback {
            CallbackDirective::Skip
        } else {
            match self.outcome {
                Outcome::Unset => CallbackDirective::Skip,
                Outcome::Response(payload) => if self.send_request_ok {
                    CallbackDirective::RespondWith(payload)
                } else {
                    CallbackDirective::Skip
                },
                Outcome::Failure(cause) => CallbackDirective::FailWith(cause),
            }
        }
    }

    /// Creates a fresh, still-pending call: the outcome starts `Unset` and
    /// the request is not yet marked as sent.
    pub fn create(
        correlation_id: String,
        connection_id: String,
        created_at: u64,
        timeout_millis: u64,
        has_callback: bool,
    ) -> (call: PendingCall)
        ensures
            call.correlation_id == correlation_id,
            call.connection_id == connection_id,
            call.created_at == created_at,
            call.timeout_millis == timeout_millis,
            call.has_callback == has_callback,
            call.send_request_ok == false,
            call.outcome is Unset,
    {
        PendingCall {
            correlation_id,
            connection_id,
            created_at,
            timeout_millis,
            has_callback,
            send_request_ok: false,
            outcome: Outcome::Unset,
        }
    }

    /// Transitions `Unset -> Response(payload)`. If the outcome is already
    /// set, the write is silently discarded: the call is left exactly as it
    /// was. This idempotency is what makes races between the receive path,
    /// the sweeper and cancellation harmless.
    pub fn complete_with_response(&mut self, payload: String)
        ensures
            old(self).outcome is Unset ==> *final(self) == old(self).with_outcome(
                Outcome::Response(payload),
            ),
            old(self).outcome.is_set() ==> *final(self) == *old(self),
    {
        if let Outcome::Unset = self.outcome {
            self.outcome = Outcome::Response(payload);
        }
    }

    /// Transitions `Unset -> Failure(cause)`, with the same
    /// silent-if-already-set rule as `complete_with_response`.
    pub fn complete_with_failure(&mut self, cause: FailureCause)
        ensures
            old(self).outcome is Unset ==> *final(self) == old(self).with_outcome(
                Outcome::Failure(cause),
            ),
            old(self).outcome.is_set() ==> *final(self) == *old(self),
    {
        if let Outcome::Unset = self.outcome {
            self.outcome = Outcome::Failure(cause);
        }
    }

    /// Whether the outcome cell has been set.
    pub fn is_completed(&self) -> (completed: bool)
        ensures
            completed == self.outcome.is_set(),
    {
        match self.outcome {
            Outcome::Unset => false,
            _ => true,
        }
    }

    /// Pure expiry test: strictly more than `timeout_millis` milliseconds
    /// have passed between `created_at` and `now`.
    pub fn is_expired(&self, now: u64) -> (expired: bool)
        ensures
            expired == self.is_expired_at(now),
    {
        now > self.created_at && now - self.created_at > self.timeout_millis
    }

    /// The correlation token this call is registered under.
    pub fn get_correlation_id(&self) -> (id: &str)
        ensures
            id@ == self.correlation_id@,
    {
        self.correlation_id.as_str()
    }

    /// The connection this call was sent on.
    pub fn get_connection_id(&self) -> (id: &str)
        ensures
            id@ == self.connection_id@,
    {
        self.connection_id.as_str()
    }

    /// The creation timestamp, in milliseconds.
    pub fn get_begin_timestamp(&self) -> (created_at: u64)
        ensures
            created_at == self.created_at,
    {
        self.created_at
    }

    /// The configured timeout, in milliseconds.
    pub fn get_timeout_millis(&self) -> (timeout: u64)
        ensures
            timeout == self.timeout_millis,
    {
        self.timeout_millis
    }

    /// Replaces the configured timeout.
    pub fn set_timeout_millis(&mut self, timeout_millis: u64)
        ensures
            *final(self) == (PendingCall { timeout_millis, ..*old(self) }),
    {
        self.timeout_millis = timeout_millis;
    }

    /// Whether the request frame was reported as successfully sent.
    pub fn is_send_request_ok(&self) -> (ok: bool)
        ensures
            ok == self.send_request_ok,
    {
        self.send_request_ok
    }

    /// Records whether the request frame was successfully sent: a plain
    /// write of the given value.
    pub fn set_send_request_ok(&mut self, send_request_ok: bool)
        ensures
            *final(self) == (PendingCall { send_request_ok, ..*old(self) }),
    {
        self.send_request_ok = send_request_ok;
    }

    /// Decides what the registered callback, if any, must be invoked with.
    /// The runtime that owns the actual closure performs the call; this
    /// function only fixes its arguments, exactly once per completion.
    pub fn callback_directive(&self) -> (directive: CallbackDirective)
        ensures
            directive == self.spec_callback_directive(),
    {
        if !self.has_callback {
            CallbackDirective::Skip
        } else {
            match &self.outcome {
                Outcome::Unset => CallbackDirective::Skip,
                Outcome::Response(payload) => {
                    if self.send_request_ok {
                        CallbackDirective::RespondWith(payload.clone())
                    } else {
                        CallbackDirective::Skip
                    }
                },
                Outcome::Failure(cause) => CallbackDirective::FailWith(*cause),
            }
        }
    }
}

} // verus!
