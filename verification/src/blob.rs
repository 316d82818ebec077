//! Storing a blob, reading it back from the node, and asking whether it is final.

use crate::client::SyscoinClient;
use crate::encoding::{decode_hex, encode_hex, hex_bytes, hex_text};
use crate::error::{ClientError, ErrorModel};
use crate::json::{flag_of, member_of, models, text_member, Json, JsonModel};
use crate::rpc::{
    added_to, is_call_of, outcome_model, Endpoint, Exchange, RequestModel, RpcClient, RpcRequest,
};
use crate::text::{has_hex_prefix, lemma_hex_prefix_makes_no_difference};
use crate::text::{strip_hex_prefix, without_hex_prefix};
use vstd::prelude::*;

verus! {

/// The largest payload that the node accepts, in bytes.
pub const MAX_BLOB_SIZE: usize = 2 * 1024 * 1024;

/// The call that stores `data`, or why none is made: a payload over the limit
/// is refused here.
pub open spec fn creation_request(data: Seq<u8>) -> Result<RequestModel, ErrorModel> {
    if data.len() > MAX_BLOB_SIZE {
        Err(ErrorModel::PayloadTooLarge { actual: data.len(), max: MAX_BLOB_SIZE as nat })
    } else {
        Ok(
            RequestModel {
                method: "syscoincreatenevmblob"@,
                params: seq![JsonModel::Text(hex_text(data))],
                endpoint: Endpoint::Wallet,
            },
        )
    }
}

/// The handle in the node's answer to a creation: the text under
/// `versionhash`, as the node gave it.
pub open spec fn created_handle(reply: Result<JsonModel, ErrorModel>) -> Result<
    Seq<char>,
    ErrorModel,
> {
    match reply {
        Err(error) => Err(error),
        Ok(result) => match text_member(result, "versionhash"@) {
            Some(handle) => Ok(handle),
            None => Err(ErrorModel::MissingField { field: "versionhash"@ }),
        },
    }
}

/// The one parameter of a query for a blob: an object that names the handle
/// without its `0x`, and asks for the payload where `with_data` is set.
pub open spec fn blob_query(blob_id: Seq<char>, with_data: bool) -> JsonModel {
    let handle: Map<Seq<char>, JsonModel> = map![
        "versionhash_or_txid"@ => JsonModel::Text(without_hex_prefix(blob_id)),
    ];
    if with_data {
        JsonModel::Object(handle.insert("getdata"@, JsonModel::Bool(true)))
    } else {
        JsonModel::Object(handle)
    }
}

/// The call that asks the node about a blob. It concerns no wallet.
pub open spec fn retrieval_request(blob_id: Seq<char>, with_data: bool) -> RequestModel {
    RequestModel {
        method: "getnevmblobdata"@,
        params: seq![blob_query(blob_id, with_data)],
        endpoint: Endpoint::Node,
    }
}

/// The payload in the node's answer to a retrieval: the text under `data`,
/// without a `0x` at its start, read as hexadecimal.
pub open spec fn retrieved_data(reply: Result<JsonModel, ErrorModel>) -> Result<
    Seq<u8>,
    ErrorModel,
> {
    match reply {
        Err(error) => Err(error),
        Ok(result) => match text_member(result, "data"@) {
            None => Err(ErrorModel::MissingField { field: "data"@ }),
            Some(text) => match hex_bytes(without_hex_prefix(text)) {
                Some(bytes) => Ok(bytes),
                None => Err(ErrorModel::Decode),
            },
        },
    }
}

/// Whether the node's answer says that the blob is final: the boolean under
/// `chainlock`, and `false` where none is there.
pub open spec fn reported_finality(reply: Result<JsonModel, ErrorModel>) -> Result<
    bool,
    ErrorModel,
> {
    match reply {
        Err(error) => Err(error),
        Ok(result) => match member_of(result, "chainlock"@) {
            Some(member) => match flag_of(member) {
                Some(flag) => Ok(flag),
                None => Ok(false),
            },
            None => Ok(false),
        },
    }
}

/// The address of a blob on the mirror: the mirror's address, `/blob/`, and the
/// handle as it was given.
pub open spec fn mirror_url(poda_url: Seq<char>, version_hash: Seq<char>) -> Seq<char> {
    poda_url + "/blob/"@ + version_hash
}

/// Whether `added` and `outcome` are what storing `data` comes to: for a
/// payload over the limit no exchange at all and the refusal; else the one
/// call, and the handle in its answer.
pub open spec fn is_creation_run(
    data: Seq<u8>,
    added: Seq<Exchange>,
    outcome: Result<Seq<char>, ErrorModel>,
) -> bool {
    match creation_request(data) {
        Err(error) => added.len() == 0 && outcome == Err::<Seq<char>, ErrorModel>(error),
        Ok(request) => is_call_of(added, request) && outcome == created_handle(added[0]->reply),
    }
}

/// Whether `added` is one GET of `url`.
pub open spec fn is_download_of(added: Seq<Exchange>, url: Seq<char>) -> bool {
    added.len() == 1 && added[0] is Download && added[0]->url == url
}

/// The call that stores `data` as a blob.
///
/// A payload over [`MAX_BLOB_SIZE`] is refused, and there is then nothing to
/// send. Otherwise the payload travels as lowercase hexadecimal text, the one
/// parameter of a call to the wallet.
pub fn create_blob_request(data: &[u8]) -> (request: Result<RpcRequest, ClientError>)
    ensures
        outcome_model(request) == creation_request(data@),
{
    if data.len() > MAX_BLOB_SIZE {
        return Err(ClientError::PayloadTooLarge { actual: data.len(), max: MAX_BLOB_SIZE });
    }
    let mut params: Vec<Json> = Vec::new();
    params.push(Json::text(encode_hex(data).as_str()));
    proof {
        assert(models(params@) =~= seq![JsonModel::Text(hex_text(data@))]);
    }
    Ok(
        RpcRequest {
            method: String::from_str("syscoincreatenevmblob"),
            params,
            endpoint: Endpoint::Wallet,
        },
    )
}

/// The handle of the blob that a creation stored.
///
/// A failed call fails with the same error. A result without text under
/// `versionhash` is a missing field.
pub fn create_blob_reply(reply: Result<Json, ClientError>) -> (handle: Result<String, ClientError>)
    ensures
        outcome_model(handle) == created_handle(outcome_model(reply)),
{
    match reply {
        Err(error) => Err(error),
        Ok(result) => match result.text_member("versionhash") {
            Some(handle) => Ok(handle),
            None => Err(ClientError::MissingField { field: String::from_str("versionhash") }),
        },
    }
}

/// The query for a blob, as a document.
fn blob_query_document(blob_id: &str, with_data: bool) -> (query: Json)
    ensures
        query@ == blob_query(blob_id@, with_data),
{
    let handle = Json::object().with(
        "versionhash_or_txid",
        Json::text(strip_hex_prefix(blob_id)),
    );
    if with_data {
        handle.with("getdata", Json::boolean(true))
    } else {
        handle
    }
}

/// The call that asks the node about the blob `blob_id`: for its payload where
/// `with_data` is set, else only for what the node knows of it.
pub fn blob_request(blob_id: &str, with_data: bool) -> (request: RpcRequest)
    ensures
        request@ == retrieval_request(blob_id@, with_data),
{
    let mut params: Vec<Json> = Vec::new();
    params.push(blob_query_document(blob_id, with_data));
    proof {
        assert(models(params@) =~= seq![blob_query(blob_id@, with_data)]);
    }
    RpcRequest { method: String::from_str("getnevmblobdata"), params, endpoint: Endpoint::Node }
}

/// The payload that a retrieval brought.
///
/// A failed call fails with the same error. A result without text under
/// `data` is a missing field; text that is not hexadecimal, after a `0x` at
/// its start is dropped, is a decoding failure.
pub fn blob_data_reply(reply: Result<Json, ClientError>) -> (data: Result<Vec<u8>, ClientError>)
    ensures
        outcome_model(data) == retrieved_data(outcome_model(reply)),
{
    match reply {
        Err(error) => Err(error),
        Ok(result) => match result.text_member("data") {
            None => Err(ClientError::MissingField { field: String::from_str("data") }),
            Some(text) => match decode_hex(strip_hex_prefix(text.as_str())) {
                Some(bytes) => Ok(bytes),
                None => Err(ClientError::Decode),
            },
        },
    }
}

/// Whether the node reported the blob as final. No word of it means that it
/// is not, and is no failure.
pub fn finality_reply(reply: Result<Json, ClientError>) -> (finality: Result<bool, ClientError>)
    ensures
        outcome_model(finality) == reported_finality(outcome_model(reply)),
{
    match reply {
        Err(error) => Err(error),
        Ok(result) => match result.member("chainlock") {
            Some(member) => match member.as_bool() {
                Some(flag) => Ok(flag),
                None => Ok(false),
            },
            None => Ok(false),
        },
    }
}

/// The address to GET a blob from on the mirror. The handle is used as it is
/// given, with any prefix.
pub fn mirror_address(poda_url: &str, version_hash: &str) -> (url: String)
    ensures
        url@ == mirror_url(poda_url@, version_hash@),
{
    let mut url = poda_url.to_owned();
    url.append("/blob/");
    url.append(version_hash);
    url
}

impl<C: RpcClient> SyscoinClient<C> {
    /// The largest payload that [`SyscoinClient::create_blob`] accepts.
    pub fn max_blob_size(&self) -> (limit: usize)
        ensures
            limit == MAX_BLOB_SIZE,
    {
        MAX_BLOB_SIZE
    }

    /// Stores `data` as a blob and gives its handle.
    ///
    /// A payload over [`MAX_BLOB_SIZE`] fails before anything is sent: the
    /// transport is not touched. Otherwise one call goes to the wallet, and the outcome is the handle
    /// that the node named, unchanged, or the failure of the call.
    pub fn create_blob(&mut self, data: &[u8]) -> (handle: Result<String, ClientError>)
        ensures
            final(self).mirror() == old(self).mirror(),
            old(self).history().is_prefix_of(final(self).history()),
            is_creation_run(
                data@,
                added_to(old(self).history(), final(self).history()),
                outcome_model(handle),
            ),
            data@.len() > MAX_BLOB_SIZE ==> final(self).transport() == old(self).transport(),
    {
        match create_blob_request(data) {
            Err(error) => Err(error),
            Ok(request) => {
                let reply = self.send(&request);
                create_blob_reply(reply)
            },
        }
    }

    /// Asks the node for the payload of the blob `blob_id`: one call, and the
    /// payload in its answer.
    pub fn get_blob_from_rpc(&mut self, blob_id: &str) -> (data: Result<Vec<u8>, ClientError>)
        ensures
            final(self).mirror() == old(self).mirror(),
            old(self).history().is_prefix_of(final(self).history()),
            ({
                let added = added_to(old(self).history(), final(self).history());
                &&& is_call_of(added, retrieval_request(blob_id@, true))
                &&& outcome_model(data) == retrieved_data(added[0]->reply)
            }),
    {
        let request = blob_request(blob_id, true);
        let reply = self.send(&request);
        blob_data_reply(reply)
    }

    /// Asks the mirror for the blob `version_hash`: one GET, and whatever it gives.
    pub fn get_blob_from_cloud(&mut self, version_hash: &str) -> (data: Result<
        Vec<u8>,
        ClientError,
    >)
        ensures
            final(self).mirror() == old(self).mirror(),
            old(self).history().is_prefix_of(final(self).history()),
            ({
                let added = added_to(old(self).history(), final(self).history());
                &&& is_download_of(added, mirror_url(old(self).mirror(), version_hash@))
                &&& outcome_model(data) == added[0]->fetched
            }),
    {
        let url = mirror_address(self.poda_url(), version_hash);
        self.download(url.as_str())
    }

    /// Asks the node whether the blob `blob_id` is final: one call, which
    /// asks for no payload.
    pub fn check_blob_finality(&mut self, blob_id: &str) -> (finality: Result<bool, ClientError>)
        ensures
            final(self).mirror() == old(self).mirror(),
            old(self).history().is_prefix_of(final(self).history()),
            ({
                let added = added_to(old(self).history(), final(self).history());
                &&& is_call_of(added, retrieval_request(blob_id@, false))
                &&& outcome_model(finality) == reported_finality(added[0]->reply)
            }),
    {
        let request = blob_request(blob_id, false);
        let reply = self.send(&request);
        finality_reply(reply)
    }
}

/// A payload within the limit is sent, and where the node accepts it and
/// names a handle, that handle comes back unchanged.
pub proof fn lemma_accepted_blob_gives_node_handle(
    data: Seq<u8>,
    added: Seq<Exchange>,
    outcome: Result<Seq<char>, ErrorModel>,
    handle: Seq<char>,
)
    requires
        data.len() <= MAX_BLOB_SIZE,
        is_creation_run(data, added, outcome),
        added[0]->reply matches Ok(result) && text_member(result, "versionhash"@) == Some(handle),
    ensures
        added.len() == 1,
        added[0] is Call,
        added[0]->request.params == seq![JsonModel::Text(hex_text(data))],
        outcome == Ok::<Seq<char>, ErrorModel>(handle),
{
}

/// A payload over the limit fails as too large, with its length and the
/// limit, and nothing is sent.
pub proof fn lemma_oversized_blob_is_not_sent(
    data: Seq<u8>,
    added: Seq<Exchange>,
    outcome: Result<Seq<char>, ErrorModel>,
)
    requires
        data.len() > MAX_BLOB_SIZE,
        is_creation_run(data, added, outcome),
    ensures
        added.len() == 0,
        outcome == Err::<Seq<char>, ErrorModel>(
            ErrorModel::PayloadTooLarge { actual: data.len(), max: MAX_BLOB_SIZE as nat },
        ),
{
}

/// A handle with `0x` before it and the handle alone ask the node for the
/// same blob, unless the handle alone begins with `0x`.
pub proof fn lemma_prefixed_handle_asks_the_same(handle: Seq<char>, with_data: bool)
    requires
        !has_hex_prefix(handle),
    ensures
        retrieval_request(seq!['0', 'x'] + handle, with_data) == retrieval_request(
            handle,
            with_data,
        ),
{
    lemma_hex_prefix_makes_no_difference(handle);
}

} // verus!
