use vstd::prelude::*;

use crate::error::AuditError;
use crate::snapshot::AccountSnapshot;

verus! {

/// The named retry policy of the post-state poller: how many independent
/// read attempts to make, and how long to wait between two attempts.
/// Injected as configuration so the loop can be exercised against a
/// scripted sequence of read outcomes instead of a real clock.
pub struct RetryPolicy {
    pub max_attempts: usize,
    pub delay_secs: u64,
}

impl RetryPolicy {
    /// A policy makes at least one attempt.
    pub open spec fn wf(&self) -> bool {
        self.max_attempts >= 1
    }
}

impl Default for RetryPolicy {
    /// The stock policy: ten attempts, two seconds apart.
    fn default() -> (p: RetryPolicy)
        ensures
            p.max_attempts == 10,
            p.delay_secs == 2,
            p.wf(),
    {
        RetryPolicy { max_attempts: 10, delay_secs: 2 }
    }
}

/// What the poller decides after one read attempt: accept the snapshot,
/// wait the configured interval and retry, or give up carrying the last
/// underlying error.
pub enum PollDecision {
    Accept(AccountSnapshot),
    RetryAfter(u64),
    GiveUp(String),
}

/// Decide what to do after the read attempt numbered `attempts_done`
/// (counting from zero) came back with `outcome`. A successful read is
/// accepted at once; a failed one is retried while the attempt budget
/// lasts, and otherwise ends the poll with the error it carried.
pub fn poll_step(policy: &RetryPolicy, attempts_done: usize, outcome: Result<
    AccountSnapshot,
    String,
>) -> (d: PollDecision)
    requires
        attempts_done < policy.max_attempts,
    ensures
        outcome matches Ok(s) ==> (d matches PollDecision::Accept(a) && a == s),
        outcome matches Err(e) ==> {
            &&& attempts_done + 1 < policy.max_attempts ==> (
            d matches PollDecision::RetryAfter(w) && w == policy.delay_secs)
            &&& attempts_done + 1 == policy.max_attempts ==> (
            d matches PollDecision::GiveUp(m) && m == e)
        },
{
    match outcome {
        Ok(s) => PollDecision::Accept(s),
        Err(e) => {
            if attempts_done + 1 < policy.max_attempts {
                PollDecision::RetryAfter(policy.delay_secs)
            } else {
                PollDecision::GiveUp(e)
            }
        },
    }
}

/// Run the bounded-retry poll against a scripted sequence of read
/// outcomes, one outcome per attempt, and report the result together with
/// the number of attempts consumed.
///
/// The poller stops at the first successful read. It never makes more
/// than `policy.max_attempts` attempts; when every attempt within the
/// budget fails, the result is a visibility timeout carrying the last
/// underlying error, after exactly `policy.max_attempts` attempts.
pub fn run_poll(policy: &RetryPolicy, outcomes: Vec<Result<AccountSnapshot, String>>) -> (r: (
    Result<AccountSnapshot, AuditError>,
    usize,
))
    requires
        policy.wf(),
        outcomes@.len() >= policy.max_attempts,
    ensures
        1 <= r.1 <= policy.max_attempts,
        r.0 is Ok <==> exists|i: int|
            0 <= i < policy.max_attempts && outcomes@[i] is Ok,
        r.0 matches Ok(s) ==> {
            &&& outcomes@[r.1 - 1] matches Ok(o) && s@ == o@
            &&& forall|j: int| 0 <= j < r.1 - 1 ==> outcomes@[j] is Err
        },
        r.0 matches Err(e) ==> {
            &&& r.1 == policy.max_attempts
            &&& forall|j: int| 0 <= j < policy.max_attempts ==> outcomes@[j] is Err
            &&& e matches AuditError::VisibilityTimeout(m)
                && m@ == outcomes@[policy.max_attempts - 1]->Err_0@
        },
{
    let mut i: usize = 0;
    loop
        invariant
            policy.wf(),
            outcomes@.len() >= policy.max_attempts,
            i < policy.max_attempts,
            forall|j: int| 0 <= j < i ==> outcomes@[j] is Err,
        decreases policy.max_attempts - i,
    {
        let outcome = read_outcome(&outcomes, i);
        match poll_step(policy, i, outcome) {
            PollDecision::Accept(s) => {
                return (Ok(s), i + 1);
            },
            PollDecision::GiveUp(m) => {
                return (Err(AuditError::VisibilityTimeout(m)), i + 1);
            },
            PollDecision::RetryAfter(_) => {
                i = i + 1;
            },
        }
    }
}

/// Copy the scripted outcome at one index.
fn read_outcome(outcomes: &Vec<Result<AccountSnapshot, String>>, i: usize) -> (r: Result<
    AccountSnapshot,
    String,
>)
    requires
        i < outcomes@.len(),
    ensures
        outcomes@[i as int] matches Ok(o) ==> (r matches Ok(s) && s@ == o@),
        outcomes@[i as int] matches Err(e) ==> (r matches Err(m) && m == e),
{
    match &outcomes[i] {
        Ok(s) => Ok(s.clone()),
        Err(e) => Err(e.clone()),
    }
}

} // verus!
