//! The prover's side on the rented node: it reads the job description and
//! the payload that the requestor uploaded, writes the proof where the
//! requestor downloads it, and computes one proof per run.

use crate::orchestrator::BlockInfo;
use crate::text::{decimal, decimal_text};
use vstd::prelude::*;

verus! {

/// The directory on the node that holds uploaded jobs and payloads.
pub fn blocks_info_dir() -> (r: String)
    ensures
        r@ == "/blocks/"@,
{
    String::from_str("/blocks/")
}

/// The directory on the node where proofs are written.
pub fn proofs_info_dir() -> (r: String)
    ensures
        r@ == "/proofs/"@,
{
    String::from_str("/proofs/")
}

/// The job description of the current run.
pub fn job_info_path() -> (r: String)
    ensures
        r@ == "/blocks/"@ + "job-info.json"@,
{
    let mut path = blocks_info_dir();
    path.append("job-info.json");
    path
}

/// The payload of a block.
pub fn block_path(block_id: i64) -> (r: String)
    ensures
        r@ == "/blocks/"@ + "block-"@ + decimal_text(block_id as int) + ".json"@,
{
    let mut path = blocks_info_dir();
    path.append("block-");
    let number = decimal(block_id);
    path.append(number.as_str());
    path.append(".json");
    path
}

/// The proof of a block.
pub fn proof_path(block_id: i64) -> (r: String)
    ensures
        r@ == "/proofs/"@ + "proof-"@ + decimal_text(block_id as int) + ".json"@,
{
    let mut path = proofs_info_dir();
    path.append("proof-");
    let number = decimal(block_id);
    path.append(number.as_str());
    path.append(".json");
    path
}

/// Where the prover gets the data of a block from.
pub enum DataSource {
    /// Read it from this file.
    File { path: String },
    /// The one proof of this run is published: stop, normally.
    Stop,
}

/// The prover's view of the task queue on the node, where every answer
/// comes from the files that the requestor uploaded.
pub struct YagnaApiClient {
    finished: bool,
}

impl YagnaApiClient {
    pub closed spec fn is_finished_spec(&self) -> bool {
        self.finished
    }

    /// The adapter reaches no server, so the server URL, the worker name and
    /// the request timeout are not used.
    pub fn new(_base_url: &str, _worker: &str, _req_server_timeout_ms: u64) -> (r: YagnaApiClient)
        ensures
            !r.is_finished_spec(),
    {
        YagnaApiClient { finished: false }
    }

    /// Whether the proof of this run is published already.
    pub fn is_finished(&self) -> (r: bool)
        ensures
            r == self.is_finished_spec(),
    {
        self.finished
    }

    /// The work of size `block_size`, given the uploaded job description: the
    /// prover asks for each size in turn, and only the uploaded size has work.
    pub fn block_to_prove(&self, info: &BlockInfo, block_size: usize) -> (r: Option<(i64, i32)>)
        ensures
            r == if info.block_size == block_size {
                Some((info.block_id, info.job_id))
            } else {
                None::<(i64, i32)>
            },
    {
        if info.block_size == block_size {
            Some((info.block_id, info.job_id))
        } else {
            None
        }
    }

    /// Reporting progress is the requestor's task: nothing to do here.
    pub fn working_on(&self, _job_id: i32) {
    }

    /// Where the data of `block_id` is, or `Stop` once a proof is published.
    pub fn prover_data(&self, block_id: i64) -> (r: DataSource)
        ensures
            self.is_finished_spec() ==> r is Stop,
            !self.is_finished_spec() ==> (r matches DataSource::File { path } && path@ == "/blocks/"@
                + "block-"@ + decimal_text(block_id as int) + ".json"@),
    {
        if self.finished {
            DataSource::Stop
        } else {
            let path = block_path(block_id);
            DataSource::File { path }
        }
    }

    /// The file to write the proof of `block_id` to.
    pub fn publish_path(&self, block_id: i64) -> (r: String)
        ensures
            r@ == "/proofs/"@ + "proof-"@ + decimal_text(block_id as int) + ".json"@,
    {
        proof_path(block_id)
    }

    /// The proof is written: this run computes no other.
    pub fn record_published(&mut self)
        ensures
            final(self).is_finished_spec(),
    {
        self.finished = true;
    }

    /// Stopping is reported by the requestor: nothing to do here.
    pub fn prover_stopped(&self, _prover_run_id: i32) {
    }

    /// The prover sees no server, so any id will do.
    pub fn register_prover(&self, _block_size: usize) -> (r: i32)
        ensures
            r == 32,
    {
        32
    }
}

} // verus!
