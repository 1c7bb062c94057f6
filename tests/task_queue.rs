use yagna_zksync::task_queue::{
    after_attempt, block_to_prove_outcome, parse_worker_id, prover_data_outcome,
    publish_block_number, publish_outcome, task_queue_backoff, working_on_outcome, AttemptError,
    CallStep, ClientError, Endpoint, PublishOutcome,
};

#[test]
fn endpoint_paths() {
    assert_eq!(Endpoint::Register.path(), "/register");
    assert_eq!(Endpoint::BlockToProve.path(), "/block_to_prove");
    assert_eq!(Endpoint::WorkingOn.path(), "/working_on");
    assert_eq!(Endpoint::ProverData.path(), "/prover_data");
    assert_eq!(Endpoint::Publish.path(), "/publish");
    assert_eq!(Endpoint::Stopped.path(), "/stopped");
}

#[test]
fn block_zero_means_no_work() {
    assert_eq!(block_to_prove_outcome(0, 5), None);
    assert_eq!(block_to_prove_outcome(77, 5), Some((77, 5)));
    assert_eq!(block_to_prove_outcome(-3, 1), Some((-3, 1)));
}

#[test]
fn duplicate_key_is_success() {
    assert_eq!(
        publish_outcome(400, Some("duplicate key".to_string())).ok(),
        Some(PublishOutcome::AlreadyPublished)
    );
    assert_eq!(publish_outcome(200, None).ok(), Some(PublishOutcome::Published));
    assert_eq!(
        publish_outcome(200, Some("anything".to_string())).ok(),
        Some(PublishOutcome::Published)
    );
}

#[test]
fn other_publish_refusals_are_errors() {
    match publish_outcome(500, Some("boom".to_string())) {
        Err(AttemptError::PublishRejected { status, message }) => {
            assert_eq!(status, 500);
            assert_eq!(message.as_deref(), Some("boom"));
        }
        _ => panic!("expected a rejection"),
    }
    assert!(matches!(
        publish_outcome(500, Some("duplicate key ".to_string())),
        Err(AttemptError::PublishRejected { status: 500, .. })
    ));
    assert!(matches!(
        publish_outcome(503, None),
        Err(AttemptError::PublishRejected { status: 503, message: None })
    ));
}

#[test]
fn working_on_needs_a_2xx_status() {
    assert!(working_on_outcome(200).is_ok());
    assert!(working_on_outcome(204).is_ok());
    assert!(working_on_outcome(299).is_ok());
    assert!(matches!(working_on_outcome(199), Err(ClientError::ReportFailed { status: 199 })));
    assert!(matches!(working_on_outcome(300), Err(ClientError::ReportFailed { status: 300 })));
    assert!(matches!(working_on_outcome(404), Err(ClientError::ReportFailed { status: 404 })));
}

#[test]
fn prover_data_not_ready_is_retryable() {
    assert_eq!(prover_data_outcome(9, Some("payload")).ok(), Some("payload"));
    assert!(matches!(
        prover_data_outcome::<u8>(9, None),
        Err(AttemptError::NotReady { block_id: 9 })
    ));
}

#[test]
fn worker_id_parsing() {
    assert_eq!(parse_worker_id(200, "17").ok(), Some(17));
    assert!(matches!(parse_worker_id(500, "oops"), Err(ClientError::InvalidWorkerId { status: 500 })));
}

#[test]
fn publish_block_number_range() {
    assert_eq!(publish_block_number(12).ok(), Some(12));
    assert_eq!(publish_block_number(4294967295).ok(), Some(u32::MAX));
    assert!(matches!(
        publish_block_number(4294967296),
        Err(ClientError::BlockOutOfRange { block_id: 4294967296 })
    ));
    assert!(matches!(publish_block_number(-1), Err(ClientError::BlockOutOfRange { .. })));
}

#[test]
fn retried_call_waits_then_gives_up() {
    let mut b = task_queue_backoff();
    assert!(matches!(
        after_attempt::<u8>(&mut b, Err(AttemptError::RequestFailed), 0),
        CallStep::RetryAfter(1000)
    ));
    assert!(matches!(
        after_attempt::<u8>(&mut b, Err(AttemptError::MalformedResponse), 1000),
        CallStep::RetryAfter(1500)
    ));
    assert!(matches!(after_attempt(&mut b, Ok(5u8), 3000), CallStep::Finished(5)));
    assert!(matches!(
        after_attempt::<u8>(&mut b, Err(AttemptError::RequestFailed), 119000),
        CallStep::GaveUp
    ));
}
