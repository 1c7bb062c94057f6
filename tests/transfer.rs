use yagna_zksync::execution::{BatchError, ExeCommand};
use yagna_zksync::transfer::{
    container_url, receive_command, send_command, transfer_outcome, TransferError,
};

#[test]
fn container_url_of_plain_path() {
    assert_eq!(container_url("/blocks/job-info.json").ok().unwrap(), "container:/blocks/job-info.json");
}

#[test]
fn container_url_is_normalized_by_the_url_parser() {
    assert_eq!(container_url("/blocks/a b.json").ok().unwrap(), "container:/blocks/a%20b.json");
}

#[test]
fn invalid_container_path_is_rejected() {
    match container_url("//[bad") {
        Err(TransferError::InvalidPath { path }) => assert_eq!(path, "//[bad"),
        _ => panic!("expected an invalid path"),
    }
    assert!(matches!(send_command("gftp://n/1", "//[bad"), Err(TransferError::InvalidPath { .. })));
    assert!(matches!(receive_command("//[bad", "gftp://n/2"), Err(TransferError::InvalidPath { .. })));
}

#[test]
fn send_then_receive_use_the_same_remote_url() {
    let send = send_command("gftp://node/abc", "/blocks/block-7.json").ok().unwrap();
    let receive = receive_command("/blocks/block-7.json", "gftp://node/def").ok().unwrap();
    match (send, receive) {
        (ExeCommand::Transfer { from: f1, to: t1 }, ExeCommand::Transfer { from: f2, to: t2 }) => {
            assert_eq!(f1, "gftp://node/abc");
            assert_eq!(t1, "container:/blocks/block-7.json");
            assert_eq!(f2, t1);
            assert_eq!(t2, "gftp://node/def");
        }
        _ => panic!("expected transfers"),
    }
}

#[test]
fn failed_transfer_names_both_ends() {
    assert!(transfer_outcome("a".to_string(), "b".to_string(), Ok(vec![])).is_ok());
    let failed = transfer_outcome(
        "gftp://x".to_string(),
        "container:/y".to_string(),
        Err(BatchError::StepFailed { step: 0, message: "disk full".to_string() }),
    );
    match failed {
        Err(TransferError::Failed { src, dst, cause: BatchError::StepFailed { step, message } }) => {
            assert_eq!(src, "gftp://x");
            assert_eq!(dst, "container:/y");
            assert_eq!(step, 0);
            assert_eq!(message, "disk full");
        }
        _ => panic!("expected a failed transfer"),
    }
}

fn apply(store: &mut std::collections::HashMap<String, Vec<u8>>, cmd: &ExeCommand) {
    if let ExeCommand::Transfer { from, to } = cmd {
        if let Some(value) = store.get(from).cloned() {
            store.insert(to.clone(), value);
        }
    }
}

#[test]
fn send_then_receive_round_trips_payloads() {
    let large: Vec<u8> = (0..1_000_000u32).map(|i| (i % 251) as u8).collect();
    let payloads = vec![Vec::new(), br#"{"block_id":7,"job_id":3,"block_size":6}"#.to_vec(), large];
    for (i, payload) in payloads.into_iter().enumerate() {
        let upload = format!("gftp://node/up-{}", i);
        let download = format!("gftp://node/down-{}", i);
        let path = format!("/blocks/block-{}.json", i);
        let mut store = std::collections::HashMap::new();
        store.insert(upload.clone(), payload.clone());
        apply(&mut store, &send_command(&upload, &path).ok().unwrap());
        apply(&mut store, &receive_command(&path, &download).ok().unwrap());
        assert_eq!(store.get(&download), Some(&payload));
    }
}
