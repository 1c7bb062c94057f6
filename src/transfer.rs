//! Moving files between the requestor and the rented node: every transfer
//! is one `Transfer` command from a source URL to a destination URL, where
//! the node's own files are addressed as `container:<path>`.

use crate::execution::{BatchError, ExeCommand};
use vstd::prelude::*;

verus! {

/// The serialization of the URL that a text parses to, if it parses.
pub uninterp spec fn parsed_url(text: Seq<char>) -> Option<Seq<char>>;

/// Relies on `url::Url::parse` and the URL's serialization (`String::from`):
/// the outcome depends on the input text alone.
#[verifier::external_body]
fn parse_url(text: &str) -> (r: Option<String>)
    ensures
        match r {
            Some(u) => parsed_url(text@) == Some(u@),
            None => parsed_url(text@) is None,
        },
{
    match url::Url::parse(text) {
        Ok(u) => Some(String::from(u)),
        Err(_) => None,
    }
}

/// The text of the URL that names `path` inside the execution context.
pub open spec fn container_text(path: Seq<char>) -> Seq<char> {
    "container:"@ + path
}

/// Why a transfer did not happen.
pub enum TransferError {
    /// `path` does not make a valid URL inside the execution context.
    InvalidPath { path: String },
    /// The `Transfer` command from `src` to `dst` failed.
    Failed { src: String, dst: String, cause: BatchError },
}

/// The URL of `path` inside the execution context.
pub fn container_url(path: &str) -> (r: Result<String, TransferError>)
    ensures
        match r {
            Ok(u) => parsed_url(container_text(path@)) == Some(u@),
            Err(e) => {
                &&& parsed_url(container_text(path@)) is None
                &&& e matches TransferError::InvalidPath { path: p } && p@ == path@
            },
        },
{
    let mut text = String::from_str("container:");
    text.append(path);
    match parse_url(text.as_str()) {
        Some(u) => Ok(u),
        None => Err(TransferError::InvalidPath { path: String::from_str(path) }),
    }
}

/// `cmd` copies the resource at `source` to `dest_path` in the context.
pub open spec fn sends(cmd: ExeCommand, source: Seq<char>, dest_path: Seq<char>) -> bool {
    &&& cmd matches ExeCommand::Transfer { from, to }
    &&& cmd->from@ == source
    &&& parsed_url(container_text(dest_path)) == Some(cmd->to@)
}

/// `cmd` copies `src_path` in the context to the resource at `dest`.
pub open spec fn receives(cmd: ExeCommand, src_path: Seq<char>, dest: Seq<char>) -> bool {
    &&& cmd matches ExeCommand::Transfer { from, to }
    &&& parsed_url(container_text(src_path)) == Some(cmd->from@)
    &&& cmd->to@ == dest
}

/// The command that uploads the resource published at `source_url` to
/// `dest_path` on the node.
pub fn send_command(source_url: &str, dest_path: &str) -> (r: Result<ExeCommand, TransferError>)
    ensures
        match r {
            Ok(cmd) => sends(cmd, source_url@, dest_path@),
            Err(e) => {
                &&& parsed_url(container_text(dest_path@)) is None
                &&& e matches TransferError::InvalidPath { path } && path@ == dest_path@
            },
        },
{
    let to = container_url(dest_path)?;
    Ok(ExeCommand::Transfer { from: String::from_str(source_url), to })
}

/// The command that downloads `src_path` on the node into the writable
/// resource at `dest_url`.
pub fn receive_command(src_path: &str, dest_url: &str) -> (r: Result<ExeCommand, TransferError>)
    ensures
        match r {
            Ok(cmd) => receives(cmd, src_path@, dest_url@),
            Err(e) => {
                &&& parsed_url(container_text(src_path@)) is None
                &&& e matches TransferError::InvalidPath { path } && path@ == src_path@
            },
        },
{
    let from = container_url(src_path)?;
    Ok(ExeCommand::Transfer { from, to: String::from_str(dest_url) })
}

/// The outcome of a transfer from the outcome of its one-command batch.
pub fn transfer_outcome(src: String, dst: String, batch: Result<Vec<String>, BatchError>) -> (r:
    Result<(), TransferError>)
    ensures
        match batch {
            Ok(_) => r is Ok,
            Err(cause) => r == Err::<(), TransferError>(TransferError::Failed { src, dst, cause }),
        },
{
    match batch {
        Ok(_) => Ok(()),
        Err(cause) => Err(TransferError::Failed { src, dst, cause }),
    }
}

/// What a `Transfer` command does to the resources it can see, keyed by URL.
pub open spec fn apply_command(store: Map<Seq<char>, Seq<u8>>, cmd: ExeCommand) -> Map<
    Seq<char>,
    Seq<u8>,
> {
    match cmd {
        ExeCommand::Transfer { from, to } => if store.contains_key(from@) {
            store.insert(to@, store[from@])
        } else {
            store
        },
        _ => store,
    }
}

/// Sending a value to a path and receiving that path back yields the value
/// that was sent.
pub proof fn lemma_send_receive_round_trip(
    store: Map<Seq<char>, Seq<u8>>,
    value: Seq<u8>,
    upload: Seq<char>,
    path: Seq<char>,
    download: Seq<char>,
    send: ExeCommand,
    receive: ExeCommand,
)
    requires
        sends(send, upload, path),
        receives(receive, path, download),
    ensures
        apply_command(apply_command(store.insert(upload, value), send), receive)[download]
            == value,
{
    let s1 = store.insert(upload, value);
    let s2 = apply_command(s1, send);
    assert(s2.contains_key(send->to@));
    assert(receive->from@ == send->to@);
}

} // verus!
