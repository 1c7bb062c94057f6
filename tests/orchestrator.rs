use yagna_zksync::orchestrator::{
    supported_block_sizes, BlockInfo, CycleAction, CycleEvent, Phase, WorkCycle, RETRY_DELAY_MS,
};

#[test]
fn supported_sizes_in_order() {
    assert_eq!(supported_block_sizes(), vec![6, 30, 74, 150, 320, 630]);
}

#[test]
fn claiming_falls_back_to_the_first_size_with_work() {
    let (mut cycle, first) = WorkCycle::new(supported_block_sizes());
    let mut asked = Vec::new();
    let mut action = first;
    loop {
        match action {
            CycleAction::ClaimWork { block_size } => {
                asked.push(block_size);
                let answer = if block_size == 150 { Some((77, 5)) } else { None };
                action = cycle.step(CycleEvent::WorkClaimed(answer));
            }
            _ => break,
        }
    }
    assert_eq!(asked, vec![6, 30, 74, 150]);
    assert_eq!(action, CycleAction::ReportInProgress { job_id: 5 });
    assert_eq!(
        cycle.phase(),
        Phase::Notifying(BlockInfo { block_id: 77, job_id: 5, block_size: 150 })
    );
}

#[test]
fn no_size_with_work_means_waiting() {
    let (mut cycle, _) = WorkCycle::new(supported_block_sizes());
    let mut action = CycleAction::Idle;
    for _ in 0..6 {
        action = cycle.step(CycleEvent::WorkClaimed(None));
    }
    assert_eq!(action, CycleAction::Sleep { ms: RETRY_DELAY_MS });
    assert_eq!(cycle.phase(), Phase::Retrying);
    assert_eq!(cycle.step(CycleEvent::Continue), CycleAction::ClaimWork { block_size: 6 });
}

#[test]
fn full_cycle_in_order() {
    let (mut cycle, first) = WorkCycle::new(vec![6]);
    assert_eq!(first, CycleAction::ClaimWork { block_size: 6 });
    let block = BlockInfo { block_id: 12, job_id: 3, block_size: 6 };
    assert_eq!(cycle.step(CycleEvent::WorkClaimed(Some((12, 3)))), CycleAction::ReportInProgress { job_id: 3 });
    assert_eq!(cycle.step(CycleEvent::Reported), CycleAction::FetchPayload { block_id: 12 });
    assert_eq!(cycle.phase(), Phase::FetchingPayload(block));
    assert_eq!(cycle.step(CycleEvent::PayloadFetched), CycleAction::Upload(block));
    assert_eq!(cycle.step(CycleEvent::Uploaded), CycleAction::RunRemote);
    assert_eq!(cycle.phase(), Phase::RunningRemote(block));
    assert_eq!(cycle.step(CycleEvent::RemoteExited { return_code: 0 }), CycleAction::DownloadResult { block_id: 12 });
    assert_eq!(cycle.step(CycleEvent::ResultDownloaded), CycleAction::Publish { block_id: 12 });
    assert_eq!(cycle.step(CycleEvent::Published), CycleAction::Complete(block));
    assert_eq!(cycle.phase(), Phase::Done(block));
    assert_eq!(cycle.step(CycleEvent::Continue), CycleAction::ClaimWork { block_size: 6 });
}

#[test]
fn nonzero_exit_still_publishes() {
    let (mut cycle, _) = WorkCycle::new(vec![30]);
    cycle.step(CycleEvent::WorkClaimed(Some((5, 1))));
    cycle.step(CycleEvent::Reported);
    cycle.step(CycleEvent::PayloadFetched);
    cycle.step(CycleEvent::Uploaded);
    assert_eq!(cycle.step(CycleEvent::RemoteExited { return_code: 1 }), CycleAction::DownloadResult { block_id: 5 });
    assert_eq!(cycle.step(CycleEvent::ResultDownloaded), CycleAction::Publish { block_id: 5 });
}

#[test]
fn failure_in_any_phase_retries_after_delay() {
    let (mut cycle, _) = WorkCycle::new(vec![6, 30]);
    cycle.step(CycleEvent::WorkClaimed(Some((9, 2))));
    cycle.step(CycleEvent::Reported);
    assert_eq!(cycle.step(CycleEvent::Failed), CycleAction::Sleep { ms: 10000 });
    assert_eq!(cycle.phase(), Phase::Retrying);
    assert_eq!(cycle.step(CycleEvent::Failed), CycleAction::Idle);
    assert_eq!(cycle.step(CycleEvent::Continue), CycleAction::ClaimWork { block_size: 6 });
    assert_eq!(cycle.phase(), Phase::ClaimingWork { size_index: 0 });
}

#[test]
fn out_of_phase_events_are_ignored() {
    let (mut cycle, _) = WorkCycle::new(vec![6]);
    assert_eq!(cycle.step(CycleEvent::Published), CycleAction::Idle);
    assert_eq!(cycle.step(CycleEvent::Continue), CycleAction::Idle);
    assert_eq!(cycle.phase(), Phase::ClaimingWork { size_index: 0 });
}

#[test]
fn empty_size_list_means_waiting() {
    let (mut cycle, first) = WorkCycle::new(vec![]);
    assert_eq!(first, CycleAction::Sleep { ms: RETRY_DELAY_MS });
    assert_eq!(cycle.phase(), Phase::Retrying);
    assert_eq!(cycle.step(CycleEvent::Continue), CycleAction::Sleep { ms: RETRY_DELAY_MS });
    assert_eq!(cycle.phase(), Phase::Retrying);
}
