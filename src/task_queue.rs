//! Decisions of the task-queue client: what each server response means, and
//! whether a failed attempt is retried under the shared backoff.

use crate::backoff::{
    lemma_interval_schedule, lemma_task_queue_schedule, min_nat, task_queue_policy, Backoff,
    BackoffPolicy,
};
use vstd::arithmetic::power::pow;
use crate::text::{parse_i32, parsed_i32};
use vstd::prelude::*;

verus! {

/// The endpoints of the task-queue server.
#[derive(Clone, Copy, Debug, PartialEq, Eq, Structural)]
pub enum Endpoint {
    Register,
    BlockToProve,
    WorkingOn,
    ProverData,
    Publish,
    Stopped,
}

impl Endpoint {
    pub open spec fn spec_path(self) -> Seq<char> {
        match self {
            Endpoint::Register => "/register"@,
            Endpoint::BlockToProve => "/block_to_prove"@,
            Endpoint::WorkingOn => "/working_on"@,
            Endpoint::ProverData => "/prover_data"@,
            Endpoint::Publish => "/publish"@,
            Endpoint::Stopped => "/stopped"@,
        }
    }

    /// The path of the endpoint, relative to the server's base URL.
    pub fn path(&self) -> (r: &'static str)
        ensures
            r@ == self.spec_path(),
    {
        match self {
            Endpoint::Register => "/register",
            Endpoint::BlockToProve => "/block_to_prove",
            Endpoint::WorkingOn => "/working_on",
            Endpoint::ProverData => "/prover_data",
            Endpoint::Publish => "/publish",
            Endpoint::Stopped => "/stopped",
        }
    }
}

/// The status code of a successful HTTP response.
pub const STATUS_OK: u16 = 200;

/// Why one attempt of a retried call failed. Each of these is retried.
pub enum AttemptError {
    /// The request could not be sent or its response not read.
    RequestFailed,
    /// The response did not parse.
    MalformedResponse,
    /// The server has no prover data for this block yet.
    NotReady { block_id: i64 },
    /// The server refused a proof, with this status and body if it had one.
    PublishRejected { status: u16, message: Option<String> },
}

/// Why a call of the task-queue client failed.
pub enum ClientError {
    /// Every retry failed and the backoff budget is spent.
    ServerUnreachable,
    /// The server did not accept an in-progress report.
    ReportFailed { status: u16 },
    /// The registration response is not a worker id.
    InvalidWorkerId { status: u16 },
    /// A block number does not fit the publish request's 32-bit field.
    BlockOutOfRange { block_id: i64 },
}

/// How a proof was accepted.
#[derive(Clone, Copy, Debug, PartialEq, Eq, Structural)]
pub enum PublishOutcome {
    /// The server stored the proof.
    Published,
    /// Another worker had already published a proof for the block.
    AlreadyPublished,
}

/// The work that a `block_to_prove` response offers: block number 0 means
/// that there is none at the requested size.
pub fn block_to_prove_outcome(block: i64, prover_run_id: i32) -> (r: Option<(i64, i32)>)
    ensures
        r == if block != 0 {
            Some((block, prover_run_id))
        } else {
            None::<(i64, i32)>
        },
{
    if block != 0 {
        Some((block, prover_run_id))
    } else {
        None
    }
}

/// The prover data of a `prover_data` response: an absent payload means that
/// it is not ready yet, which is retried.
pub fn prover_data_outcome<T>(block_id: i64, payload: Option<T>) -> (r: Result<T, AttemptError>)
    ensures
        match payload {
            Some(p) => r == Ok::<T, AttemptError>(p),
            None => r == Err::<T, AttemptError>(AttemptError::NotReady { block_id }),
        },
{
    match payload {
        Some(p) => Ok(p),
        None => Err(AttemptError::NotReady { block_id }),
    }
}

/// The body with which the server says that a proof is already stored.
pub open spec fn duplicate_key_text() -> Seq<char> {
    "duplicate key"@
}

/// The outcome of a publish attempt from the response status and its body
/// (`None` when the body could not be read). A "duplicate key" refusal is a
/// success: another worker published first.
pub fn publish_outcome(status: u16, body: Option<String>) -> (r: Result<
    PublishOutcome,
    AttemptError,
>)
    ensures
        status == STATUS_OK ==> r == Ok::<PublishOutcome, AttemptError>(PublishOutcome::Published),
        status != STATUS_OK ==> match body {
            Some(text) => if text@ == duplicate_key_text() {
                r == Ok::<PublishOutcome, AttemptError>(PublishOutcome::AlreadyPublished)
            } else {
                r == Err::<PublishOutcome, AttemptError>(
                    AttemptError::PublishRejected { status, message: Some(text) },
                )
            },
            None => r == Err::<PublishOutcome, AttemptError>(
                AttemptError::PublishRejected { status, message: None },
            ),
        },
{
    if status == STATUS_OK {
        return Ok(PublishOutcome::Published);
    }
    match body {
        Some(text) => {
            let duplicate = String::from_str("duplicate key");
            if text == duplicate {
                Ok(PublishOutcome::AlreadyPublished)
            } else {
                Err(AttemptError::PublishRejected { status, message: Some(text) })
            }
        },
        None => Err(AttemptError::PublishRejected { status, message: None }),
    }
}

/// A status code in the success class 2xx.
pub open spec fn is_success_status(status: u16) -> bool {
    200 <= status && status <= 299
}

/// The outcome of an in-progress report: any 2xx status is accepted, any
/// other is a failure.
pub fn working_on_outcome(status: u16) -> (r: Result<(), ClientError>)
    ensures
        is_success_status(status) ==> r is Ok,
        !is_success_status(status) ==> r == Err::<(), ClientError>(
            ClientError::ReportFailed { status },
        ),
{
    if 200 <= status && status <= 299 {
        Ok(())
    } else {
        Err(ClientError::ReportFailed { status })
    }
}

/// The worker id in a registration response body.
pub fn parse_worker_id(status: u16, body: &str) -> (r: Result<i32, ClientError>)
    ensures
        match parsed_i32(body@) {
            Some(id) => r == Ok::<i32, ClientError>(id),
            None => r == Err::<i32, ClientError>(ClientError::InvalidWorkerId { status }),
        },
{
    match parse_i32(body) {
        Some(id) => Ok(id),
        None => Err(ClientError::InvalidWorkerId { status }),
    }
}

/// The block number as the publish request carries it.
pub fn publish_block_number(block_id: i64) -> (r: Result<u32, ClientError>)
    ensures
        0 <= block_id <= u32::MAX ==> r == Ok::<u32, ClientError>(block_id as u32),
        !(0 <= block_id <= u32::MAX) ==> r == Err::<u32, ClientError>(
            ClientError::BlockOutOfRange { block_id },
        ),
{
    if 0 <= block_id && block_id <= 4294967295 {
        Ok(block_id as u32)
    } else {
        Err(ClientError::BlockOutOfRange { block_id })
    }
}

/// The backoff that each retried call starts with.
pub fn task_queue_backoff() -> (b: Backoff)
    ensures
        b.wf(),
        b.policy == (BackoffPolicy {
            initial_interval_ms: 1000,
            multiplier_num: 3,
            multiplier_den: 2,
            max_interval_ms: 10000,
            max_elapsed_ms: 120000,
        }),
        b.retries@ == 0,
{
    Backoff::new(BackoffPolicy::task_queue())
}

/// What a retried call does after one attempt.
pub enum CallStep<T> {
    /// The call is done with this value.
    Finished(T),
    /// Wait this long, then attempt again.
    RetryAfter(u64),
    /// Give up: the server is unreachable.
    GaveUp,
}

impl Backoff {
    /// The backoff still grants a retry after a failure at `elapsed_ms`.
    pub open spec fn grants(&self, elapsed_ms: u64) -> bool {
        elapsed_ms + self.policy.interval(self.retries@) <= self.policy.max_elapsed_ms
    }
}

/// Decides what follows an attempt that ended `elapsed_ms` after the call
/// began: a success ends the call, a failure is retried while the backoff
/// grants it.
pub fn after_attempt<T>(backoff: &mut Backoff, outcome: Result<T, AttemptError>, elapsed_ms: u64) -> (r:
    CallStep<T>)
    requires
        old(backoff).wf(),
    ensures
        final(backoff).wf(),
        final(backoff).policy == old(backoff).policy,
        match outcome {
            Ok(v) => r == CallStep::Finished(v) && final(backoff).retries@ == old(
                backoff,
            ).retries@,
            Err(_) => if old(backoff).grants(elapsed_ms) {
                &&& r == CallStep::<T>::RetryAfter(
                    old(backoff).policy.interval(old(backoff).retries@) as u64,
                )
                &&& final(backoff).retries@ == old(backoff).retries@ + 1
            } else {
                &&& r == CallStep::<T>::GaveUp
                &&& final(backoff).retries@ == old(backoff).retries@
            },
        },
{
    match outcome {
        Ok(v) => CallStep::Finished(v),
        Err(_) => match backoff.next_backoff(elapsed_ms) {
            Some(wait) => CallStep::RetryAfter(wait),
            None => CallStep::GaveUp,
        },
    }
}

/// The waits that a backoff, after `n` retries, grants to failed attempts
/// ending at the elapsed times `times`, up to the first refusal: this is what
/// `after_attempt` answers to each of them in turn.
pub open spec fn granted_waits(policy: BackoffPolicy, n: nat, times: Seq<u64>) -> Seq<nat>
    decreases times.len(),
{
    if times.len() == 0 {
        Seq::empty()
    } else if times[0] + policy.interval(n) <= policy.max_elapsed_ms {
        seq![policy.interval(n)] + granted_waits(policy, n + 1, times.drop_first())
    } else {
        Seq::empty()
    }
}

/// Each attempt fails no earlier than the wait before it has ended.
pub open spec fn attempts_follow_waits(policy: BackoffPolicy, n: nat, times: Seq<u64>) -> bool {
    forall|k: int|
        0 <= k < times.len() - 1 ==> #[trigger] times[k + 1] >= times[k] + policy.interval(
            (n + k) as nat,
        )
}

pub open spec fn total(waits: Seq<nat>) -> nat
    decreases waits.len(),
{
    if waits.len() == 0 {
        0
    } else {
        waits[0] + total(waits.drop_first())
    }
}

proof fn lemma_granted_are_intervals(policy: BackoffPolicy, n: nat, times: Seq<u64>, k: int)
    requires
        0 <= k < granted_waits(policy, n, times).len(),
    ensures
        granted_waits(policy, n, times)[k] == policy.interval((n + k) as nat),
    decreases times.len(),
{
    if k > 0 {
        lemma_granted_are_intervals(policy, n + 1, times.drop_first(), k - 1);
    }
}

proof fn lemma_granted_within_budget(policy: BackoffPolicy, n: nat, times: Seq<u64>)
    requires
        attempts_follow_waits(policy, n, times),
    ensures
        granted_waits(policy, n, times).len() > 0 ==> times[0] + total(
            granted_waits(policy, n, times),
        ) <= policy.max_elapsed_ms,
        granted_waits(policy, n, times).len() <= times.len(),
    decreases times.len(),
{
    if times.len() > 0 {
        let rest = times.drop_first();
        assert(attempts_follow_waits(policy, n + 1, rest)) by {
            assert forall|k: int| 0 <= k < rest.len() - 1 implies #[trigger] rest[k + 1] >= rest[k]
                + policy.interval((n + 1 + k) as nat) by {
                assert(times[(k + 1) + 1] >= times[k + 1] + policy.interval((n + (k + 1)) as nat));
            }
        }
        lemma_granted_within_budget(policy, n + 1, rest);
        let g = granted_waits(policy, n, times);
        if g.len() > 0 {
            let tail = granted_waits(policy, n + 1, rest);
            assert(g.drop_first() =~= tail);
            assert(g[0] == policy.interval(n));
            assert(total(g) == policy.interval(n) + total(tail));
            if tail.len() > 0 {
                assert(times[0int + 1] >= times[0int] + policy.interval((n + 0int) as nat));
                assert(rest[0] == times[1]);
            } else {
                assert(total(tail) == 0);
            }
        }
    }
}

proof fn lemma_total_at_least(waits: Seq<nat>, floor: nat)
    requires
        forall|k: int| 0 <= k < waits.len() ==> #[trigger] waits[k] >= floor,
    ensures
        total(waits) >= floor * waits.len(),
    decreases waits.len(),
{
    if waits.len() > 0 {
        let rest = waits.drop_first();
        assert(forall|k: int| 0 <= k < rest.len() ==> #[trigger] rest[k] == waits[k + 1]);
        lemma_total_at_least(rest, floor);
        assert(floor * waits.len() == floor + floor * rest.len()) by (nonlinear_arith)
            requires
                waits.len() == rest.len() + 1,
        ;
    }
}

/// A task-queue call whose every attempt fails, at elapsed times `times`
/// measured from the start of the call: the k-th wait is
/// `min(1000 * 1.5^k, 10000)` ms (rounded down); when each attempt ends after
/// the wait before it, all waits together end within the 120 s budget, and
/// the call gives up after at most 120 waits.
pub proof fn lemma_failing_call(times: Seq<u64>)
    ensures
        forall|k: int|
            0 <= k < granted_waits(task_queue_policy(), 0, times).len() ==> #[trigger] granted_waits(
                task_queue_policy(),
                0,
                times,
            )[k] == min_nat((1000 * pow(3, k as nat) / pow(2, k as nat)) as nat, 10000),
        attempts_follow_waits(task_queue_policy(), 0, times) ==> {
            &&& total(granted_waits(task_queue_policy(), 0, times)) <= 120000
            &&& granted_waits(task_queue_policy(), 0, times).len() <= 120
        },
{
    let p = task_queue_policy();
    let g = granted_waits(p, 0, times);
    assert forall|k: int| 0 <= k < g.len() implies #[trigger] g[k] == min_nat(
        (1000 * pow(3, k as nat) / pow(2, k as nat)) as nat,
        10000,
    ) by {
        lemma_granted_are_intervals(p, 0, times, k);
        lemma_task_queue_schedule(k as nat);
    }
    if attempts_follow_waits(p, 0, times) {
        lemma_granted_within_budget(p, 0, times);
        assert forall|k: int| 0 <= k < g.len() implies #[trigger] g[k] >= 1000 by {
            lemma_granted_are_intervals(p, 0, times, k);
            lemma_task_queue_schedule(0);
            lemma_interval_floor(p, k as nat);
        }
        lemma_total_at_least(g, 1000);
    }
}

proof fn lemma_interval_floor(policy: BackoffPolicy, n: nat)
    requires
        policy.is_valid(),
    ensures
        policy.interval(n) >= policy.interval(0),
    decreases n,
{
    if n > 0 {
        lemma_interval_floor(policy, (n - 1) as nat);
        lemma_interval_schedule(policy, (n - 1) as nat);
    }
}

} // verus!
