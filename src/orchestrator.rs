//! The work loop as an explicit state machine: claim a unit of work, report
//! it, fetch its payload, upload it, run the prover remotely, download the
//! proof and publish it; on any failure, wait and start over.

use vstd::prelude::*;

verus! {

/// One unit of work claimed from the task-queue server.
#[derive(Clone, Copy, Debug, PartialEq, Eq, Structural)]
pub struct BlockInfo {
    pub block_id: i64,
    pub job_id: i32,
    pub block_size: usize,
}

/// The delay before a failed cycle starts over.
pub const RETRY_DELAY_MS: u64 = 10000;

/// The block sizes that the prover supports, in the order they are tried.
pub fn supported_block_sizes() -> (r: Vec<usize>)
    ensures
        r@ == seq![6usize, 30, 74, 150, 320, 630],
{
    vec![6, 30, 74, 150, 320, 630]
}

/// Where a cycle stands.
#[derive(Clone, Copy, Debug, PartialEq, Eq, Structural)]
pub enum Phase {
    /// Asking for work of the size at `size_index` of the supported sizes.
    ClaimingWork { size_index: usize },
    Notifying(BlockInfo),
    FetchingPayload(BlockInfo),
    Uploading(BlockInfo),
    RunningRemote(BlockInfo),
    DownloadingResult(BlockInfo),
    Publishing(BlockInfo),
    /// The proof of this block is published.
    Done(BlockInfo),
    /// A step failed, or no size had work: waiting before starting over.
    Retrying,
}

/// The outcome of the action last asked for.
#[derive(Clone, Copy, Debug)]
pub enum CycleEvent {
    /// The server's answer to a claim: a block and job id, or none.
    WorkClaimed(Option<(i64, i32)>),
    Reported,
    PayloadFetched,
    Uploaded,
    /// The remote prover exited with this code.
    RemoteExited { return_code: i32 },
    ResultDownloaded,
    Published,
    /// The action failed.
    Failed,
    /// Start the next cycle.
    Continue,
}

/// What the caller is to do next.
#[derive(Clone, Copy, Debug, PartialEq, Eq, Structural)]
pub enum CycleAction {
    ClaimWork { block_size: usize },
    ReportInProgress { job_id: i32 },
    FetchPayload { block_id: i64 },
    /// Send the job description and the payload of this block to the node.
    Upload(BlockInfo),
    RunRemote,
    DownloadResult { block_id: i64 },
    Publish { block_id: i64 },
    /// The cycle is complete; send `Continue` for the next one.
    Complete(BlockInfo),
    /// Wait this long, then send `Continue`.
    Sleep { ms: u64 },
    /// The event does not belong to the current phase; nothing to do.
    Idle,
}

impl Phase {
    /// A unit of work is being claimed or processed.
    pub open spec fn is_working(self) -> bool {
        !(self is Done) && !(self is Retrying)
    }
}

/// The next phase and action from a phase and an event.
pub open spec fn transition(sizes: Seq<usize>, phase: Phase, event: CycleEvent) -> (Phase, CycleAction) {
    match (phase, event) {
        (Phase::ClaimingWork { size_index }, CycleEvent::WorkClaimed(Some((block_id, job_id)))) => {
            let block = BlockInfo { block_id, job_id, block_size: sizes[size_index as int] };
            (Phase::Notifying(block), CycleAction::ReportInProgress { job_id })
        },
        (Phase::ClaimingWork { size_index }, CycleEvent::WorkClaimed(None)) => {
            if size_index + 1 < sizes.len() {
                (
                    Phase::ClaimingWork { size_index: (size_index + 1) as usize },
                    CycleAction::ClaimWork { block_size: sizes[size_index + 1] },
                )
            } else {
                (Phase::Retrying, CycleAction::Sleep { ms: RETRY_DELAY_MS })
            }
        },
        (Phase::Notifying(b), CycleEvent::Reported) => (
            Phase::FetchingPayload(b),
            CycleAction::FetchPayload { block_id: b.block_id },
        ),
        (Phase::FetchingPayload(b), CycleEvent::PayloadFetched) => (
            Phase::Uploading(b),
            CycleAction::Upload(b),
        ),
        (Phase::Uploading(b), CycleEvent::Uploaded) => (Phase::RunningRemote(b), CycleAction::RunRemote),
        (Phase::RunningRemote(b), CycleEvent::RemoteExited { .. }) => (
            Phase::DownloadingResult(b),
            CycleAction::DownloadResult { block_id: b.block_id },
        ),
        (Phase::DownloadingResult(b), CycleEvent::ResultDownloaded) => (
            Phase::Publishing(b),
            CycleAction::Publish { block_id: b.block_id },
        ),
        (Phase::Publishing(b), CycleEvent::Published) => (Phase::Done(b), CycleAction::Complete(b)),
        (Phase::Done(_), CycleEvent::Continue) | (Phase::Retrying, CycleEvent::Continue) => {
            if sizes.len() > 0 {
                (Phase::ClaimingWork { size_index: 0 }, CycleAction::ClaimWork { block_size: sizes[0] })
            } else {
                (Phase::Retrying, CycleAction::Sleep { ms: RETRY_DELAY_MS })
            }
        },
        (p, CycleEvent::Failed) => if p.is_working() {
            (Phase::Retrying, CycleAction::Sleep { ms: RETRY_DELAY_MS })
        } else {
            (p, CycleAction::Idle)
        },
        (p, _) => (p, CycleAction::Idle),
    }
}

/// The phase reached and the actions asked for along a run of events.
pub open spec fn run_events(sizes: Seq<usize>, phase: Phase, events: Seq<CycleEvent>) -> (Phase, Seq<
    CycleAction,
>)
    decreases events.len(),
{
    if events.len() == 0 {
        (phase, Seq::empty())
    } else {
        let (next, action) = transition(sizes, phase, events[0]);
        let (last, actions) = run_events(sizes, next, events.drop_first());
        (last, seq![action] + actions)
    }
}

/// The work loop of one requestor.
pub struct WorkCycle {
    sizes: Vec<usize>,
    phase: Phase,
}

impl WorkCycle {
    pub closed spec fn sizes(&self) -> Seq<usize> {
        self.sizes@
    }

    pub closed spec fn spec_phase(&self) -> Phase {
        self.phase
    }

    pub open spec fn wf(&self) -> bool {
        self.spec_phase() matches Phase::ClaimingWork { size_index } ==> size_index
            < self.sizes().len()
    }

    /// Starts claiming work at the first of `sizes`. With no sizes there is no
    /// work to claim, and the cycle starts by waiting.
    pub fn new(sizes: Vec<usize>) -> (r: (WorkCycle, CycleAction))
        ensures
            r.0.wf(),
            r.0.sizes() == sizes@,
            sizes@.len() > 0 ==> r.0.spec_phase() == (Phase::ClaimingWork { size_index: 0 })
                && r.1 == (CycleAction::ClaimWork { block_size: sizes@[0] }),
            sizes@.len() == 0 ==> r.0.spec_phase() == Phase::Retrying && r.1 == (
            CycleAction::Sleep { ms: RETRY_DELAY_MS }),
    {
        if sizes.len() > 0 {
            let first = sizes[0];
            (
                WorkCycle { sizes, phase: Phase::ClaimingWork { size_index: 0 } },
                CycleAction::ClaimWork { block_size: first },
            )
        } else {
            (WorkCycle { sizes, phase: Phase::Retrying }, CycleAction::Sleep { ms: RETRY_DELAY_MS })
        }
    }

    /// The current phase.
    pub fn phase(&self) -> (r: Phase)
        ensures
            r == self.spec_phase(),
    {
        self.phase
    }

    /// Takes the outcome of the last action and says what to do next.
    pub fn step(&mut self, event: CycleEvent) -> (r: CycleAction)
        requires
            old(self).wf(),
        ensures
            final(self).wf(),
            final(self).sizes() == old(self).sizes(),
            (final(self).spec_phase(), r) == transition(
                old(self).sizes(),
                old(self).spec_phase(),
                event,
            ),
    {
        let (next, action) = match (self.phase, event) {
            (Phase::ClaimingWork { size_index }, CycleEvent::WorkClaimed(Some((block_id, job_id)))) => {
                let block = BlockInfo { block_id, job_id, block_size: self.sizes[size_index] };
                (Phase::Notifying(block), CycleAction::ReportInProgress { job_id })
            },
            (Phase::ClaimingWork { size_index }, CycleEvent::WorkClaimed(None)) => {
                if size_index < self.sizes.len() - 1 {
                    (
                        Phase::ClaimingWork { size_index: size_index + 1 },
                        CycleAction::ClaimWork { block_size: self.sizes[size_index + 1] },
                    )
                } else {
                    (Phase::Retrying, CycleAction::Sleep { ms: RETRY_DELAY_MS })
                }
            },
            (Phase::Notifying(b), CycleEvent::Reported) => (
                Phase::FetchingPayload(b),
                CycleAction::FetchPayload { block_id: b.block_id },
            ),
            (Phase::FetchingPayload(b), CycleEvent::PayloadFetched) => (
                Phase::Uploading(b),
                CycleAction::Upload(b),
            ),
            (Phase::Uploading(b), CycleEvent::Uploaded) => (
                Phase::RunningRemote(b),
                CycleAction::RunRemote,
            ),
            (Phase::RunningRemote(b), CycleEvent::RemoteExited { .. }) => (
                Phase::DownloadingResult(b),
                CycleAction::DownloadResult { block_id: b.block_id },
            ),
            (Phase::DownloadingResult(b), CycleEvent::ResultDownloaded) => (
                Phase::Publishing(b),
                CycleAction::Publish { block_id: b.block_id },
            ),
            (Phase::Publishing(b), CycleEvent::Published) => (
                Phase::Done(b),
                CycleAction::Complete(b),
            ),
            (Phase::Done(_), CycleEvent::Continue) | (Phase::Retrying, CycleEvent::Continue) => {
                if self.sizes.len() > 0 {
                    (
                        Phase::ClaimingWork { size_index: 0 },
                        CycleAction::ClaimWork { block_size: self.sizes[0] },
                    )
                } else {
                    (Phase::Retrying, CycleAction::Sleep { ms: RETRY_DELAY_MS })
                }
            },
            (p, CycleEvent::Failed) => match p {
                Phase::Done(_) | Phase::Retrying => (p, CycleAction::Idle),
                _ => (Phase::Retrying, CycleAction::Sleep { ms: RETRY_DELAY_MS }),
            },
            (p, _) => (p, CycleAction::Idle),
        };
        self.phase = next;
        action
    }
}

/// `k` answers of "no work" followed by one that offers work.
pub open spec fn fallback_answers(k: nat, block_id: i64, job_id: i32) -> Seq<CycleEvent> {
    Seq::new(k, |m: int| CycleEvent::WorkClaimed(None)).push(
        CycleEvent::WorkClaimed(Some((block_id, job_id))),
    )
}

/// Claiming falls back through the sizes in order: when the sizes after
/// `start` have no work `k` times and then work comes, exactly the next `k`
/// sizes are asked for, the work is taken at the last of them, and no later
/// size is ever asked for.
pub proof fn lemma_size_class_fallback(
    sizes: Seq<usize>,
    start: usize,
    k: nat,
    block_id: i64,
    job_id: i32,
)
    requires
        start + k < sizes.len(),
        sizes.len() <= usize::MAX,
    ensures
        run_events(sizes, Phase::ClaimingWork { size_index: start }, fallback_answers(k, block_id, job_id))
            == (
            Phase::Notifying(
                BlockInfo { block_id, job_id, block_size: sizes[(start + k) as int] },
            ),
            Seq::new(k, |m: int| CycleAction::ClaimWork { block_size: sizes[start + m + 1] }).push(
                CycleAction::ReportInProgress { job_id },
            ),
        ),
    decreases k,
{
    let events = fallback_answers(k, block_id, job_id);
    let expected = Seq::new(k, |m: int| CycleAction::ClaimWork { block_size: sizes[start + m + 1] }).push(
        CycleAction::ReportInProgress { job_id },
    );
    if k == 0 {
        reveal_with_fuel(run_events, 2);
        assert(events =~= seq![CycleEvent::WorkClaimed(Some((block_id, job_id)))]);
        assert(events.drop_first() =~= Seq::empty());
        assert(expected =~= seq![CycleAction::ReportInProgress { job_id }]);
    } else {
        let k1 = (k - 1) as nat;
        lemma_size_class_fallback(sizes, (start + 1) as usize, k1, block_id, job_id);
        assert(events.drop_first() =~= fallback_answers(k1, block_id, job_id));
        assert(events[0] == CycleEvent::WorkClaimed(None));
        let rest = Seq::new(k1, |m: int| CycleAction::ClaimWork { block_size: sizes[start + 1 + m + 1] }).push(
            CycleAction::ReportInProgress { job_id },
        );
        assert(seq![CycleAction::ClaimWork { block_size: sizes[(start + 1) as int] }] + rest =~= expected);
    }
}

/// A remote exit with any return code still leads to downloading and then
/// publishing the result.
pub proof fn lemma_remote_exit_still_publishes(sizes: Seq<usize>, block: BlockInfo, return_code: i32)
    ensures
        run_events(
            sizes,
            Phase::RunningRemote(block),
            seq![CycleEvent::RemoteExited { return_code }, CycleEvent::ResultDownloaded],
        ) == (
            Phase::Publishing(block),
            seq![
                CycleAction::DownloadResult { block_id: block.block_id },
                CycleAction::Publish { block_id: block.block_id },
            ],
        ),
{
    let events = seq![CycleEvent::RemoteExited { return_code }, CycleEvent::ResultDownloaded];
    assert(events.drop_first() =~= seq![CycleEvent::ResultDownloaded]);
    assert(events.drop_first().drop_first() =~= Seq::<CycleEvent>::empty());
    reveal_with_fuel(run_events, 3);
    let (_, tail) = run_events(sizes, Phase::DownloadingResult(block), events.drop_first());
    assert(tail =~= seq![CycleAction::Publish { block_id: block.block_id }] + Seq::empty());
    assert(seq![CycleAction::DownloadResult { block_id: block.block_id }] + tail =~= seq![
        CycleAction::DownloadResult { block_id: block.block_id },
        CycleAction::Publish { block_id: block.block_id },
    ]);
}

} // verus!
