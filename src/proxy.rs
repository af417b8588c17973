//! The retrying proxy: forwards one invocation to the supervised router and
//! absorbs the race between the front door going live and the router
//! binding its listener.
//!
//! The decisions live here as a state machine; the caller performs each
//! attempt and each pause and reports what happened.
use crate::adapter::{decode_payload, AdapterError};
use vstd::prelude::*;
use vstd::utf8::{decode_utf8, valid_utf8};

verus! {

/// How many attempts one invocation makes before it gives up.
pub const MAX_ATTEMPTS: u32 = 500;

/// The fixed pause between two attempts, in milliseconds.
pub const RETRY_INTERVAL_MS: u64 = 10;

/// The content type of every forwarded request.
pub const FORWARD_CONTENT_TYPE: &'static str = "application/json";

/// The body of the request forwarded to the router: the invocation's
/// payload as text, or `Decode` when it is not UTF-8.
pub fn forward_payload(body: &[u8]) -> (r: Result<String, AdapterError>)
    ensures
        r is Err <==> !valid_utf8(body@),
        r matches Err(e) ==> e is Decode,
        r matches Ok(t) ==> t@ == decode_utf8(body@),
{
    let text = decode_payload(body)?;
    Ok(text.to_owned())
}

/// What one attempt to reach the router came to.
pub enum Attempt {
    /// The transport worked: the router answered with this status and body.
    Reached { status: u16, body: String },
    /// The router could not be reached (refused, timed out, reset).
    Unreachable { error: String },
    /// The router answered, but its body could not be read. This is no
    /// transport failure of the kind that a slow start causes, so it is not
    /// retried.
    Unreadable { error: String },
}

/// The failure that an invocation reports once every attempt has failed.
pub struct TransportError {
    pub message: String,
}

/// What the caller does next.
pub enum Step {
    /// Relay this answer to the invoker as it is.
    Forward { status: u16, body: String },
    /// Sleep this long, then make the next attempt.
    Wait { delay_ms: u64 },
    /// Report this error to the invoker.
    Fail(TransportError),
}

/// The retry state of one invocation: never shared with another.
pub struct RetryState {
    /// Attempts made so far.
    pub attempts: u32,
    /// Total pause asked for so far, in milliseconds.
    pub waited_ms: u64,
    /// Whether the invocation has been forwarded or has failed.
    pub finished: bool,
}

impl RetryState {
    /// The state keeps the pause total in step with the attempts: one pause
    /// after each failed attempt but the last.
    pub open spec fn wf(&self) -> bool {
        &&& self.attempts <= MAX_ATTEMPTS
        &&& if self.finished {
            self.attempts >= 1 && self.waited_ms == RETRY_INTERVAL_MS * (self.attempts - 1)
        } else {
            self.attempts < MAX_ATTEMPTS && self.waited_ms == RETRY_INTERVAL_MS * self.attempts
        }
    }

    /// The state before the first attempt.
    pub open spec fn initial() -> RetryState {
        RetryState { attempts: 0, waited_ms: 0, finished: false }
    }

    /// The state after one more attempt that came to `outcome`.
    pub open spec fn after(self, outcome: Attempt) -> RetryState {
        let attempts = (self.attempts + 1) as u32;
        match outcome {
            Attempt::Reached { .. } => RetryState { attempts, waited_ms: self.waited_ms, finished: true },
            Attempt::Unreadable { .. } => RetryState {
                attempts,
                waited_ms: self.waited_ms,
                finished: true,
            },
            Attempt::Unreachable { .. } => if attempts < MAX_ATTEMPTS {
                RetryState {
                    attempts,
                    waited_ms: (self.waited_ms + RETRY_INTERVAL_MS) as u64,
                    finished: false,
                }
            } else {
                RetryState { attempts, waited_ms: self.waited_ms, finished: true }
            },
        }
    }

    /// What the caller is told to do after one more attempt that came to `outcome`.
    pub open spec fn decide(self, outcome: Attempt) -> Step {
        match outcome {
            Attempt::Reached { status, body } => Step::Forward { status, body },
            Attempt::Unreadable { error } => Step::Fail(TransportError { message: error }),
            Attempt::Unreachable { error } => if self.attempts + 1 < MAX_ATTEMPTS {
                Step::Wait { delay_ms: RETRY_INTERVAL_MS }
            } else {
                Step::Fail(TransportError { message: error })
            },
        }
    }

    /// A fresh state, before the first attempt.
    pub fn new() -> (r: RetryState)
        ensures
            r == RetryState::initial(),
            r.wf(),
    {
        RetryState { attempts: 0, waited_ms: 0, finished: false }
    }

    /// Takes in what the latest attempt came to and says what to do next:
    /// a reached router is relayed unchanged, whatever its status; an
    /// unreachable one is tried again after a pause until the attempts run
    /// out, and then its last error is reported; an answer whose body could
    /// not be read fails at once.
    pub fn record(&mut self, outcome: Attempt) -> (r: Step)
        requires
            old(self).wf(),
            !old(self).finished,
        ensures
            final(self).wf(),
            *final(self) == old(self).after(outcome),
            r == old(self).decide(outcome),
            outcome matches Attempt::Reached { status, body } ==> r == (Step::Forward {
                status,
                body,
            }),
            final(self).attempts == old(self).attempts + 1,
            final(self).finished <==> !(r is Wait),
    {
        self.attempts = self.attempts + 1;
        match outcome {
            Attempt::Reached { status, body } => {
                self.finished = true;
                Step::Forward { status, body }
            },
            Attempt::Unreadable { error } => {
                self.finished = true;
                Step::Fail(TransportError { message: error })
            },
            Attempt::Unreachable { error } => {
                if self.attempts < MAX_ATTEMPTS {
                    self.waited_ms = self.waited_ms + RETRY_INTERVAL_MS;
                    Step::Wait { delay_ms: RETRY_INTERVAL_MS }
                } else {
                    self.finished = true;
                    Step::Fail(TransportError { message: error })
                }
            },
        }
    }

    /// The attempts made after the first one.
    pub fn retries(&self) -> (r: u32)
        requires
            self.wf(),
            self.attempts >= 1,
        ensures
            r == self.attempts - 1,
    {
        self.attempts - 1
    }
}

/// Feeds `outcomes` to a machine in state `s`, one attempt each, until the
/// outcomes run out or the machine has finished; gives the state it ends in
/// and the steps it asked for on the way.
pub open spec fn drive(s: RetryState, outcomes: Seq<Attempt>) -> (RetryState, Seq<Step>)
    decreases outcomes.len(),
{
    if outcomes.len() == 0 || s.finished {
        (s, Seq::empty())
    } else {
        let rest = drive(s.after(outcomes[0]), outcomes.drop_first());
        (rest.0, seq![s.decide(outcomes[0])] + rest.1)
    }
}

/// Whether the first `n` outcomes are all failed attempts.
pub open spec fn unreachable_prefix(outcomes: Seq<Attempt>, n: int) -> bool {
    forall|i: int| 0 <= i < n ==> (#[trigger] outcomes[i]) is Unreachable
}

proof fn lemma_drive_reached(s: RetryState, outcomes: Seq<Attempt>, k: nat)
    requires
        s.wf(),
        !s.finished,
        s.attempts + k < MAX_ATTEMPTS,
        outcomes.len() == k + 1,
        unreachable_prefix(outcomes, k as int),
        outcomes[k as int] is Reached,
    ensures
        drive(s, outcomes).0 == (RetryState {
            attempts: (s.attempts + k + 1) as u32,
            waited_ms: (s.waited_ms + RETRY_INTERVAL_MS * k) as u64,
            finished: true,
        }),
        drive(s, outcomes).1.len() == k + 1,
        forall|i: int|
            0 <= i < k ==> #[trigger] drive(s, outcomes).1[i] == (Step::Wait {
                delay_ms: RETRY_INTERVAL_MS,
            }),
        drive(s, outcomes).1[k as int] == (Step::Forward {
            status: outcomes[k as int]->Reached_status,
            body: outcomes[k as int]->Reached_body,
        }),
    decreases k,
{
    let next = s.after(outcomes[0]);
    let tail = outcomes.drop_first();
    if k > 0 {
        assert(outcomes[0] is Unreachable);
        assert(unreachable_prefix(tail, k - 1)) by {
            assert forall|i: int| 0 <= i < k - 1 implies (#[trigger] tail[i]) is Unreachable by {
                assert(tail[i] == outcomes[i + 1]);
            }
        }
        lemma_drive_reached(next, tail, (k - 1) as nat);
        assert(drive(s, outcomes).0 == drive(next, tail).0);
        assert(next.waited_ms + RETRY_INTERVAL_MS * (k - 1) == s.waited_ms + RETRY_INTERVAL_MS * k)
            by (nonlinear_arith)
            requires
                next.waited_ms == s.waited_ms + RETRY_INTERVAL_MS,
        ;
        let steps = drive(s, outcomes).1;
        let rest = drive(next, tail).1;
        assert(steps == seq![s.decide(outcomes[0])] + rest);
        assert forall|i: int| 0 <= i < k implies #[trigger] steps[i] == (Step::Wait {
            delay_ms: RETRY_INTERVAL_MS,
        }) by {
            if i > 0 {
                assert(steps[i] == rest[i - 1]);
            }
        }
        assert(steps[k as int] == rest[k - 1]);
    } else {
        assert(tail.len() == 0);
        assert(drive(next, tail) == (next, Seq::<Step>::empty()));
        assert(drive(s, outcomes).1 == seq![s.decide(outcomes[0])] + Seq::<Step>::empty());
    }
}

proof fn lemma_drive_unreachable(s: RetryState, outcomes: Seq<Attempt>)
    requires
        s.wf(),
        !s.finished,
        outcomes.len() >= MAX_ATTEMPTS - s.attempts,
        unreachable_prefix(outcomes, MAX_ATTEMPTS - s.attempts),
    ensures
        drive(s, outcomes).0 == (RetryState {
            attempts: MAX_ATTEMPTS,
            waited_ms: (RETRY_INTERVAL_MS * (MAX_ATTEMPTS - 1)) as u64,
            finished: true,
        }),
        drive(s, outcomes).1.len() == MAX_ATTEMPTS - s.attempts,
        forall|i: int|
            0 <= i < MAX_ATTEMPTS - s.attempts - 1 ==> #[trigger] drive(s, outcomes).1[i] == (
            Step::Wait { delay_ms: RETRY_INTERVAL_MS }),
        drive(s, outcomes).1[MAX_ATTEMPTS - s.attempts - 1] == Step::Fail(
            TransportError {
                message: outcomes[MAX_ATTEMPTS - s.attempts - 1]->Unreachable_error,
            },
        ),
    decreases MAX_ATTEMPTS - s.attempts,
{
    let n = MAX_ATTEMPTS - s.attempts;
    let next = s.after(outcomes[0]);
    let tail = outcomes.drop_first();
    assert(outcomes[0] is Unreachable);
    let steps = drive(s, outcomes).1;
    let rest = drive(next, tail).1;
    if n > 1 {
        assert(unreachable_prefix(tail, n - 1)) by {
            assert forall|i: int| 0 <= i < n - 1 implies (#[trigger] tail[i]) is Unreachable by {
                assert(tail[i] == outcomes[i + 1]);
            }
        }
        lemma_drive_unreachable(next, tail);
        assert(steps == seq![s.decide(outcomes[0])] + rest);
        assert forall|i: int| 0 <= i < n - 1 implies #[trigger] steps[i] == (Step::Wait {
            delay_ms: RETRY_INTERVAL_MS,
        }) by {
            if i > 0 {
                assert(steps[i] == rest[i - 1]);
            }
        }
        assert(steps[n - 1] == rest[n - 2]);
        assert(tail[n - 2] == outcomes[n - 1]);
    } else {
        assert(next.finished);
        assert(rest.len() == 0);
        assert(steps == seq![s.decide(outcomes[0])] + rest);
    }
}

/// A router that becomes reachable after `k` failed attempts, `k` below the
/// ceiling, is forwarded to on attempt `k + 1`, after `k` pauses of the fixed
/// interval, and what it answered is relayed unchanged.
pub proof fn lemma_reachable_after_failures(outcomes: Seq<Attempt>, k: nat)
    requires
        k < MAX_ATTEMPTS,
        outcomes.len() == k + 1,
        unreachable_prefix(outcomes, k as int),
        outcomes[k as int] is Reached,
    ensures
        drive(RetryState::initial(), outcomes).0.finished,
        drive(RetryState::initial(), outcomes).0.attempts == k + 1,
        drive(RetryState::initial(), outcomes).0.waited_ms == k * RETRY_INTERVAL_MS,
        drive(RetryState::initial(), outcomes).1.len() == k + 1,
        forall|i: int|
            0 <= i < k ==> #[trigger] drive(RetryState::initial(), outcomes).1[i] == (
            Step::Wait { delay_ms: RETRY_INTERVAL_MS }),
        drive(RetryState::initial(), outcomes).1[k as int] == (Step::Forward {
            status: outcomes[k as int]->Reached_status,
            body: outcomes[k as int]->Reached_body,
        }),
{
    lemma_drive_reached(RetryState::initial(), outcomes, k);
}

/// A router that never becomes reachable gets exactly `MAX_ATTEMPTS`
/// attempts, however many more outcomes are on offer, with a pause between
/// each two; the invocation then fails with the last attempt's error.
pub proof fn lemma_unreachable_gives_up(outcomes: Seq<Attempt>)
    requires
        outcomes.len() >= MAX_ATTEMPTS,
        unreachable_prefix(outcomes, outcomes.len() as int),
    ensures
        drive(RetryState::initial(), outcomes).0.finished,
        drive(RetryState::initial(), outcomes).0.attempts == MAX_ATTEMPTS,
        drive(RetryState::initial(), outcomes).0.waited_ms == (MAX_ATTEMPTS - 1)
            * RETRY_INTERVAL_MS,
        drive(RetryState::initial(), outcomes).1.len() == MAX_ATTEMPTS,
        forall|i: int|
            0 <= i < MAX_ATTEMPTS - 1 ==> #[trigger] drive(RetryState::initial(), outcomes).1[i]
                == (Step::Wait { delay_ms: RETRY_INTERVAL_MS }),
        drive(RetryState::initial(), outcomes).1[MAX_ATTEMPTS - 1] == Step::Fail(
            TransportError { message: outcomes[MAX_ATTEMPTS - 1]->Unreachable_error },
        ),
{
    lemma_drive_unreachable(RetryState::initial(), outcomes);
}

} // verus!
