//! A transport that answers from a fixed script, for trying the client out
//! without a node.

use crate::encoding::{encode_hex, hex_text};
use crate::error::{ClientError, ErrorModel};
use crate::json::{json_parsed, Json, JsonModel};
use crate::rpc::{outcome_model, RpcClient};
use crate::text::same;
use vstd::prelude::*;

verus! {

/// A transport that reaches no node: every call is answered by
/// [`scripted_reply`], every GET by [`scripted_payload`].
#[derive(Debug, Clone, Copy, PartialEq, Eq)]
pub struct MockRpcClient {}

/// The bytes that the mock serves as blob data and as every download: `mock_data`.
pub open spec fn scripted_payload() -> Seq<u8> {
    seq![109u8, 111u8, 99u8, 107u8, 95u8, 100u8, 97u8, 116u8, 97u8]
}

/// The mock's answer to a call of `method`, whatever the parameters.
pub open spec fn scripted_reply(method: Seq<char>) -> Result<JsonModel, ErrorModel> {
    if method == "getbalance"@ {
        match json_parsed("10.5"@) {
            Ok(balance) => Ok(balance),
            Err(complaint) => Err(ErrorModel::Malformed { detail: complaint }),
        }
    } else if method == "syscoincreatenevmblob"@ {
        Ok(JsonModel::Object(map!["versionhash"@ => JsonModel::Text("mock_blob_hash"@)]))
    } else if method == "getnevmblobdata"@ {
        Ok(JsonModel::Object(map!["data"@ => JsonModel::Text(hex_text(scripted_payload()))]))
    } else if method == "loadwallet"@ || method == "createwallet"@ {
        Ok(JsonModel::Null)
    } else {
        Err(ErrorModel::Transport { detail: "Unimplemented mock method"@ })
    }
}

/// The bytes `mock_data`.
fn payload() -> (bytes: Vec<u8>)
    ensures
        bytes@ == scripted_payload(),
{
    let mut bytes: Vec<u8> = Vec::new();
    bytes.push(109);
    bytes.push(111);
    bytes.push(99);
    bytes.push(107);
    bytes.push(95);
    bytes.push(100);
    bytes.push(97);
    bytes.push(116);
    bytes.push(97);
    proof {
        assert(bytes@ =~= scripted_payload());
    }
    bytes
}

/// The scripted answer to a call of `method`.
fn reply_to(method: &str) -> (reply: Result<Json, ClientError>)
    ensures
        outcome_model(reply) == scripted_reply(method@),
{
    if same(method, "getbalance") {
        match Json::parse("10.5") {
            Ok(balance) => Ok(balance),
            Err(complaint) => Err(ClientError::Malformed { detail: complaint }),
        }
    } else if same(method, "syscoincreatenevmblob") {
        Ok(Json::object().with("versionhash", Json::text("mock_blob_hash")))
    } else if same(method, "getnevmblobdata") {
        let data = encode_hex(payload().as_slice());
        Ok(Json::object().with("data", Json::text(data.as_str())))
    } else if same(method, "loadwallet") || same(method, "createwallet") {
        Ok(Json::null())
    } else {
        Err(ClientError::Transport { detail: String::from_str("Unimplemented mock method") })
    }
}

impl RpcClient for MockRpcClient {
    fn call(&mut self, method: &str, params: &[Json]) -> (reply: Result<Json, ClientError>)
        ensures
            outcome_model(reply) == scripted_reply(method@),
    {
        reply_to(method)
    }

    fn call_wallet(&mut self, method: &str, params: &[Json]) -> (reply: Result<Json, ClientError>)
        ensures
            outcome_model(reply) == scripted_reply(method@),
    {
        reply_to(method)
    }

    fn http_get(&mut self, url: &str) -> (reply: Result<Vec<u8>, ClientError>)
        ensures
            outcome_model(reply) == Ok::<Seq<u8>, ErrorModel>(scripted_payload()),
    {
        Ok(payload())
    }
}

} // verus!
