//! Bounded retry of a single outbound request. One known transient fault —
//! a peer closing an HTTP/2 stream with a clean, no-error reason — is
//! retried immediately up to three times; every other failure, and the
//! fourth transient one, is propagated unchanged.

use vstd::prelude::*;

verus! {

/// How many times the transient fault is retried before it is propagated.
pub const MAX_TRANSIENT_RETRIES: u8 = 3;

/// What a single attempt of the wrapped request came back with, as the
/// caller classified it: delivered, failed with the known transient HTTP/2
/// clean reset, or failed in any other way.
#[derive(Clone, Copy, Debug, PartialEq, Eq, Structural)]
pub enum AttemptOutcome {
    Success,
    TransientReset,
    OtherError,
}

/// Retry bookkeeping for one logical request.
pub struct RetryState {
    transient_failures: u8,
}

impl RetryState {
    /// Transient failures seen so far for this request.
    pub closed spec fn spec_failures(&self) -> u8 {
        self.transient_failures
    }

    /// A fresh request: no failures seen.
    pub fn new() -> (r: RetryState)
        ensures
            r.spec_failures() == 0,
    {
        RetryState { transient_failures: 0 }
    }

    /// Decides after one failed attempt: retry immediately exactly when the
    /// failure is the transient fault and fewer than
    /// [`MAX_TRANSIENT_RETRIES`] such retries have happened; otherwise the
    /// error propagates to the caller unchanged.
    pub fn should_retry(&mut self, transient: bool) -> (retry: bool)
        ensures
            retry == (transient && old(self).spec_failures() < MAX_TRANSIENT_RETRIES),
            retry ==> final(self).spec_failures() == old(self).spec_failures() + 1,
            !retry ==> *final(self) == *old(self),
    {
        if transient && self.transient_failures < MAX_TRANSIENT_RETRIES {
            self.transient_failures = self.transient_failures + 1;
            true
        } else {
            false
        }
    }
}

/// The outcome the caller sees when the attempts of one request come back
/// as `script` says, `retries` transient retries having already happened:
/// `None` only if the script ends before the request resolves.
pub open spec fn retry_outcome(script: Seq<AttemptOutcome>, retries: int) -> Option<
    AttemptOutcome,
>
    decreases script.len(),
{
    if script.len() == 0 {
        None
    } else {
        match script[0] {
            AttemptOutcome::Success => Some(AttemptOutcome::Success),
            AttemptOutcome::OtherError => Some(AttemptOutcome::OtherError),
            AttemptOutcome::TransientReset => {
                if retries < MAX_TRANSIENT_RETRIES {
                    retry_outcome(script.drop_first(), retries + 1)
                } else {
                    Some(AttemptOutcome::TransientReset)
                }
            },
        }
    }
}

/// How many attempts are made before the request resolves (or the script
/// runs out).
pub open spec fn retry_attempts(script: Seq<AttemptOutcome>, retries: int) -> int
    decreases script.len(),
{
    if script.len() == 0 {
        0
    } else {
        match script[0] {
            AttemptOutcome::Success => 1,
            AttemptOutcome::OtherError => 1,
            AttemptOutcome::TransientReset => {
                if retries < MAX_TRANSIENT_RETRIES {
                    1 + retry_attempts(script.drop_first(), retries + 1)
                } else {
                    1
                }
            },
        }
    }
}

/// How many retry warnings are logged: one per transient failure that is
/// retried.
pub open spec fn retry_warnings(script: Seq<AttemptOutcome>, retries: int) -> int
    decreases script.len(),
{
    if script.len() == 0 {
        0
    } else {
        match script[0] {
            AttemptOutcome::Success => 0,
            AttemptOutcome::OtherError => 0,
            AttemptOutcome::TransientReset => {
                if retries < MAX_TRANSIENT_RETRIES {
                    1 + retry_warnings(script.drop_first(), retries + 1)
                } else {
                    0
                }
            },
        }
    }
}

/// What one retried request resolved to: the outcome the caller sees (or
/// `None` where the attempt script ran out first), the number of attempts
/// made, and the number of retry warnings logged.
#[derive(Clone, Debug, PartialEq)]
pub struct RetryTrace {
    pub outcome: Option<AttemptOutcome>,
    pub attempts: usize,
    pub warnings: usize,
}

/// Plays one logical request against a script of attempt outcomes,
/// retrying exactly as the retry wrapper does.
pub fn run_retry(script: &Vec<AttemptOutcome>) -> (t: RetryTrace)
    ensures
        t.outcome == retry_outcome(script@, 0),
        t.attempts == retry_attempts(script@, 0),
        t.warnings == retry_warnings(script@, 0),
{
    let mut state = RetryState::new();
    let mut i: usize = 0;
    let n: usize = script.len();
    proof {
        assert(script@.skip(0) =~= script@);
    }
    loop
        invariant
            n == script@.len(),
            i <= n,
            state.spec_failures() <= MAX_TRANSIENT_RETRIES,
            i == state.spec_failures(),
            retry_outcome(script@, 0) == retry_outcome(script@.skip(i as int), i as int),
            retry_attempts(script@, 0) == i + retry_attempts(script@.skip(i as int), i as int),
            retry_warnings(script@, 0) == i + retry_warnings(script@.skip(i as int), i as int),
        decreases n - i,
    {
        if i >= n {
            return RetryTrace { outcome: None, attempts: i, warnings: i };
        }
        let outcome: AttemptOutcome = script[i];
        proof {
            assert(script@.skip(i as int)[0] == script@[i as int]);
        }
        match outcome {
            AttemptOutcome::Success => {
                return RetryTrace {
                    outcome: Some(AttemptOutcome::Success),
                    attempts: i + 1,
                    warnings: i,
                };
            },
            AttemptOutcome::OtherError => {
                return RetryTrace {
                    outcome: Some(AttemptOutcome::OtherError),
                    attempts: i + 1,
                    warnings: i,
                };
            },
            AttemptOutcome::TransientReset => {
                let retry = state.should_retry(true);
                if !retry {
                    return RetryTrace {
                        outcome: Some(AttemptOutcome::TransientReset),
                        attempts: i + 1,
                        warnings: i,
                    };
                }
                proof {
                    assert(script@.skip(i as int).drop_first() =~= script@.skip(i + 1));
                }
                i = i + 1;
            },
        }
    }
}

/// Law: a request whose first two attempts fail with the transient fault
/// and whose third succeeds resolves to success, with exactly two retry
/// warnings and three attempts — no error surfaces to the caller.
pub proof fn lemma_retry_recovers(script: Seq<AttemptOutcome>)
    requires
        script.len() >= 3,
        script[0] == AttemptOutcome::TransientReset,
        script[1] == AttemptOutcome::TransientReset,
        script[2] == AttemptOutcome::Success,
    ensures
        retry_outcome(script, 0) == Some(AttemptOutcome::Success),
        retry_attempts(script, 0) == 3,
        retry_warnings(script, 0) == 2,
{
    reveal_with_fuel(retry_outcome, 4);
    reveal_with_fuel(retry_attempts, 4);
    reveal_with_fuel(retry_warnings, 4);
    assert(script.drop_first()[0] == AttemptOutcome::TransientReset);
    assert(script.drop_first().drop_first()[0] == AttemptOutcome::Success);
}

/// Law: a request that keeps failing with the transient fault surfaces
/// that error after exactly three retries, that is four attempts in all.
pub proof fn lemma_retry_exhausts(script: Seq<AttemptOutcome>)
    requires
        script.len() >= 4,
        forall|i: int| 0 <= i < 4 ==> script[i] == AttemptOutcome::TransientReset,
    ensures
        retry_outcome(script, 0) == Some(AttemptOutcome::TransientReset),
        retry_attempts(script, 0) == 4,
        retry_warnings(script, 0) == 3,
{
    reveal_with_fuel(retry_outcome, 5);
    reveal_with_fuel(retry_attempts, 5);
    reveal_with_fuel(retry_warnings, 5);
    assert(script.drop_first()[0] == AttemptOutcome::TransientReset);
    assert(script.drop_first().drop_first()[0] == AttemptOutcome::TransientReset);
    assert(script.drop_first().drop_first().drop_first()[0] == AttemptOutcome::TransientReset);
}

} // verus!
