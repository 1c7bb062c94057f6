use yagna_zksync::adapter::{
    block_path, blocks_info_dir, job_info_path, proof_path, proofs_info_dir, DataSource,
    YagnaApiClient,
};
use yagna_zksync::demand::{create_demand, PropertyValue, NODE_NAME, TASK_PACKAGE};
use yagna_zksync::orchestrator::BlockInfo;

#[test]
fn directories_and_paths() {
    assert_eq!(blocks_info_dir(), "/blocks/");
    assert_eq!(proofs_info_dir(), "/proofs/");
    assert_eq!(job_info_path(), "/blocks/job-info.json");
    assert_eq!(block_path(1234), "/blocks/block-1234.json");
    assert_eq!(proof_path(1234), "/proofs/proof-1234.json");
    assert_eq!(block_path(-1), "/blocks/block--1.json");
}

#[test]
fn adapter_offers_only_the_uploaded_size() {
    let client = YagnaApiClient::new("http://localhost", "worker", 1000);
    let info = BlockInfo { block_id: 40, job_id: 8, block_size: 74 };
    assert_eq!(client.block_to_prove(&info, 6), None);
    assert_eq!(client.block_to_prove(&info, 74), Some((40, 8)));
    assert_eq!(client.register_prover(0), 32);
}

#[test]
fn adapter_computes_one_proof_per_run() {
    let mut client = YagnaApiClient::new("http://localhost", "worker", 1000);
    assert!(!client.is_finished());
    match client.prover_data(40) {
        DataSource::File { path } => assert_eq!(path, "/blocks/block-40.json"),
        DataSource::Stop => panic!("expected a file"),
    }
    assert_eq!(client.publish_path(40), "/proofs/proof-40.json");
    client.record_published();
    assert!(client.is_finished());
    assert!(matches!(client.prover_data(41), DataSource::Stop));
}

#[test]
fn demand_properties_and_constraints() {
    let d = create_demand(1_600_000_000_000, "community.3");
    assert_eq!(d.deadline_ms, 1_600_000_000_000);
    assert_eq!(d.properties.len(), 4);
    assert_eq!(d.properties[0].key, "golem.node.id.name");
    assert!(matches!(&d.properties[0].value, PropertyValue::Text(t) if t == NODE_NAME));
    assert_eq!(d.properties[1].key, "golem.node.debug.subnet");
    assert!(matches!(&d.properties[1].value, PropertyValue::Text(t) if t == "community.3"));
    assert_eq!(d.properties[2].key, "golem.srv.comp.task_package");
    assert!(matches!(&d.properties[2].value, PropertyValue::Text(t) if t == TASK_PACKAGE));
    assert_eq!(d.properties[3].key, "golem.srv.comp.expiration");
    assert!(matches!(d.properties[3].value, PropertyValue::Integer(1_600_000_000_000)));
    assert_eq!(
        d.constraints,
        "(&\n\t(golem.runtime.name=vm)\n\t(golem.node.debug.subnet=community.3)\n\t(golem.inf.mem.gib>16)\n\t(golem.inf.storage.gib>1)\n)"
    );
}
