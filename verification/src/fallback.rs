//! Reading a blob: from the node first, and from the cloud mirror where the
//! node does not give it.
//!
//! The node may have pruned a payload, or lag behind the mirror. So any
//! failure of the node's path is a reason to ask the mirror, once. The node's
//! error is handed out with the request for the mirror, to be logged; what the
//! mirror answers is the outcome, whether data or error.

use crate::blob::{blob_data_reply, blob_request, mirror_address, mirror_url};
use crate::blob::{retrieval_request, retrieved_data};
use crate::client::SyscoinClient;
use crate::error::{ClientError, ErrorModel};
use crate::json::{Json, JsonModel};
use crate::rpc::{added_to, count_of, lemma_few_counted, outcome_model, Exchange};
use crate::rpc::{RpcClient, RpcRequest};
use vstd::prelude::*;

verus! {

/// A retrieval that was sent to the node and waits for its answer.
#[derive(Debug, Clone, PartialEq, Eq)]
pub struct BlobFetch {
    mirror_url: String,
}

/// A download that was asked of the mirror and waits for its answer.
#[derive(Debug, Clone, PartialEq, Eq)]
pub struct MirrorFetch {
    url: String,
}

/// What follows the node's answer to a retrieval.
pub enum FetchStep {
    /// The node gave the payload. Nothing more is sent.
    Done(Vec<u8>),
    /// The node's path failed with `node_error`: GET `url` from the mirror,
    /// and hand the answer to `pending`.
    AskMirror { url: String, node_error: ClientError, pending: MirrorFetch },
}

/// What a [`FetchStep`] holds.
pub enum FetchStepModel {
    Done(Seq<u8>),
    AskMirror { url: Seq<char>, node_error: ErrorModel },
}

impl View for FetchStep {
    type V = FetchStepModel;

    open spec fn view(&self) -> FetchStepModel {
        match *self {
            FetchStep::Done(data) => FetchStepModel::Done(data@),
            FetchStep::AskMirror { url, node_error, pending } => FetchStepModel::AskMirror {
                url: url@,
                node_error: node_error@,
            },
        }
    }
}

/// What follows the node's answer, for a blob whose address on the mirror is `url`.
pub open spec fn fetch_step(url: Seq<char>, reply: Result<JsonModel, ErrorModel>)
    -> FetchStepModel {
    match retrieved_data(reply) {
        Ok(data) => FetchStepModel::Done(data),
        Err(node_error) => FetchStepModel::AskMirror { url, node_error },
    }
}

/// Whether `added` and `outcome` are what reading the blob `blob_id` comes to:
/// the retrieval from the node; after it one GET from the mirror, where the
/// node's path failed, and nothing else; and as the outcome the node's payload,
/// or else whatever the mirror gave.
pub open spec fn is_fetch_run(
    poda_url: Seq<char>,
    blob_id: Seq<char>,
    added: Seq<Exchange>,
    outcome: Result<Seq<u8>, ErrorModel>,
) -> bool {
    &&& added.len() >= 1
    &&& added[0] is Call
    &&& added[0]->request == retrieval_request(blob_id, true)
    &&& match fetch_step(mirror_url(poda_url, blob_id), added[0]->reply) {
        FetchStepModel::Done(data) => added.len() == 1 && outcome == Ok::<Seq<u8>, ErrorModel>(
            data,
        ),
        FetchStepModel::AskMirror { url, node_error } => {
            &&& added.len() == 2
            &&& added[1] is Download
            &&& added[1]->url == url
            &&& outcome == added[1]->fetched
        },
    }
}

/// The test for an exchange with the mirror.
pub open spec fn mirror_test() -> spec_fn(Exchange) -> bool {
    |exchange: Exchange| exchange is Download
}

/// How many of `added` went to the mirror.
pub open spec fn mirror_contacts(added: Seq<Exchange>) -> nat {
    count_of(added, mirror_test())
}

/// Begins to read the blob `blob_id` where the mirror is at `poda_url`: the
/// retrieval to send to the node, and what waits for its answer.
pub fn get_blob_request(poda_url: &str, blob_id: &str) -> (begun: (RpcRequest, BlobFetch))
    ensures
        begun.0@ == retrieval_request(blob_id@, true),
        begun.1.mirror_url() == mirror_url(poda_url@, blob_id@),
{
    (blob_request(blob_id, true), BlobFetch { mirror_url: mirror_address(poda_url, blob_id) })
}

impl BlobFetch {
    /// The address of the blob on the mirror.
    pub closed spec fn mirror_url(&self) -> Seq<char> {
        self.mirror_url@
    }

    /// What follows the node's answer: its payload where the retrieval
    /// succeeded, and on any failure the request for the mirror.
    pub fn answered(self, reply: Result<Json, ClientError>) -> (step: FetchStep)
        ensures
            step@ == fetch_step(self.mirror_url(), outcome_model(reply)),
            step matches FetchStep::AskMirror { url, node_error, pending } ==> pending.url() == url@,
    {
        match blob_data_reply(reply) {
            Ok(data) => FetchStep::Done(data),
            Err(node_error) => FetchStep::AskMirror {
                url: self.mirror_url.clone(),
                node_error,
                pending: MirrorFetch { url: self.mirror_url },
            },
        }
    }
}

impl MirrorFetch {
    /// The address that is asked.
    pub closed spec fn url(&self) -> Seq<char> {
        self.url@
    }

    /// How the read ends with the mirror's answer: with just that answer. The
    /// mirror is not asked again.
    pub fn answered(self, reply: Result<Vec<u8>, ClientError>) -> (outcome: Result<
        Vec<u8>,
        ClientError,
    >)
        ensures
            outcome == reply,
    {
        reply
    }
}

impl<C: RpcClient> SyscoinClient<C> {
    /// Reads the blob `blob_id`: from the node, and from the mirror where the
    /// node's path fails.
    ///
    /// Each of the two is asked at most once. The node's error is dropped
    /// where the mirror is asked: the outcome is then the mirror's answer,
    /// data or error.
    pub fn get_blob(&mut self, blob_id: &str) -> (data: Result<Vec<u8>, ClientError>)
        ensures
            final(self).mirror() == old(self).mirror(),
            old(self).history().is_prefix_of(final(self).history()),
            is_fetch_run(
                old(self).mirror(),
                blob_id@,
                added_to(old(self).history(), final(self).history()),
                outcome_model(data),
            ),
    {
        let (retrieval, waiting) = get_blob_request(self.poda_url(), blob_id);
        let reply = self.send(&retrieval);
        match waiting.answered(reply) {
            FetchStep::Done(data) => Ok(data),
            FetchStep::AskMirror { url, node_error, pending } => {
                let fetched = self.download(url.as_str());
                pending.answered(fetched)
            },
        }
    }
}

/// Where the node gives the payload, the read gives exactly that payload, and
/// the mirror is never asked.
pub proof fn lemma_node_data_needs_no_mirror(
    poda_url: Seq<char>,
    blob_id: Seq<char>,
    added: Seq<Exchange>,
    outcome: Result<Seq<u8>, ErrorModel>,
)
    requires
        is_fetch_run(poda_url, blob_id, added, outcome),
        retrieved_data(added[0]->reply) is Ok,
    ensures
        outcome == retrieved_data(added[0]->reply),
        added.len() == 1,
        mirror_contacts(added) == 0,
{
    lemma_few_counted(added, mirror_test());
}

/// Where the node's path fails, for whatever reason, the mirror is asked
/// exactly once, for the handle as it was given, and its answer is the
/// outcome: its data, or its error.
pub proof fn lemma_node_failure_asks_mirror_once(
    poda_url: Seq<char>,
    blob_id: Seq<char>,
    added: Seq<Exchange>,
    outcome: Result<Seq<u8>, ErrorModel>,
)
    requires
        is_fetch_run(poda_url, blob_id, added, outcome),
        retrieved_data(added[0]->reply) is Err,
    ensures
        added.len() == 2,
        added[1] is Download,
        added[1]->url == mirror_url(poda_url, blob_id),
        mirror_contacts(added) == 1,
        outcome == added[1]->fetched,
{
    lemma_few_counted(added, mirror_test());
}

} // verus!
