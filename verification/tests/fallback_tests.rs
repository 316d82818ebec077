use bitcoin_da_client::client::SyscoinClient;
use bitcoin_da_client::error::ClientError;
use bitcoin_da_client::fallback::{get_blob_request, FetchStep};
use bitcoin_da_client::json::Json;
use bitcoin_da_client::rpc::{Endpoint, RpcClient};

/// A transport that answers from a list, in order, and notes what it was asked.
struct Script {
    replies: Vec<Result<Json, ClientError>>,
    downloads: Vec<Result<Vec<u8>, ClientError>>,
    asked: Vec<String>,
}

impl Script {
    fn new(replies: Vec<Result<Json, ClientError>>) -> Script {
        Script { replies, downloads: Vec::new(), asked: Vec::new() }
    }

    fn note(&mut self, path: &str, method: &str, params: &[Json]) -> Result<Json, ClientError> {
        self.asked.push(format!("{} {} {}", path, method, Json::array(params).render()));
        if self.replies.is_empty() {
            panic!("the transport was asked more often than the script allows");
        }
        self.replies.remove(0)
    }
}

impl RpcClient for Script {
    fn call(&mut self, method: &str, params: &[Json]) -> Result<Json, ClientError> {
        self.note("node", method, params)
    }

    fn call_wallet(&mut self, method: &str, params: &[Json]) -> Result<Json, ClientError> {
        self.note("wallet", method, params)
    }

    fn http_get(&mut self, url: &str) -> Result<Vec<u8>, ClientError> {
        self.asked.push(format!("get {}", url));
        if self.downloads.is_empty() {
            panic!("the transport was asked for more downloads than the script allows");
        }
        self.downloads.remove(0)
    }
}

fn failure(message: &str) -> ClientError {
    ClientError::Transport { detail: message.to_string() }
}

fn data_reply(data: &str) -> Json {
    Json::object().with("data", Json::text(data))
}

const ASKED_NODE: &str = "node getnevmblobdata [{\"getdata\":true,\"versionhash_or_txid\":\"abcd\"}]";

#[test]
fn node_data_needs_no_mirror() {
    // No download is scripted: asking the mirror would panic.
    let mut client = SyscoinClient::new(Script::new(vec![Ok(data_reply("0x0102ff"))]), "https://m");
    assert_eq!(client.get_blob("0xabcd"), Ok(vec![1, 2, 255]));
    assert_eq!(client.into_transport().asked, vec![ASKED_NODE.to_string()]);
}

#[test]
fn node_failure_asks_the_mirror_once() {
    let failures = vec![
        Err(failure("connection refused")),
        Err(ClientError::Http { status: 500, body: "RPC error".to_string() }),
        Err(ClientError::Malformed { detail: "bad".to_string() }),
        Err(ClientError::Application { error: Json::text("pruned") }),
        Err(ClientError::MissingResult),
        Ok(Json::object()),
        Ok(data_reply("xyz")),
        Ok(Json::object().with("data", Json::integer(1))),
    ];
    for node_reply in failures {
        let mut script = Script::new(vec![node_reply]);
        script.downloads = vec![Ok(b"from the mirror".to_vec())];
        let mut client = SyscoinClient::new(script, "https://m");
        assert_eq!(client.get_blob("0xabcd"), Ok(b"from the mirror".to_vec()));
        assert_eq!(
            client.into_transport().asked,
            vec![ASKED_NODE.to_string(), "get https://m/blob/0xabcd".to_string()]
        );
    }
}

#[test]
fn mirror_failure_is_the_outcome() {
    let mut script = Script::new(vec![Err(failure("node down"))]);
    script.downloads = vec![Err(ClientError::Http { status: 404, body: String::new() })];
    let mut client = SyscoinClient::new(script, "https://m");
    assert_eq!(
        client.get_blob("abcd"),
        Err(ClientError::Http { status: 404, body: String::new() })
    );
    assert_eq!(client.into_transport().asked.len(), 2);
}

#[test]
fn fetch_steps_can_be_taken_by_hand() {
    let (request, waiting) = get_blob_request("https://m", "0xabcd");
    assert_eq!(request.method, "getnevmblobdata");
    assert_eq!(request.endpoint, Endpoint::Node);
    match waiting.answered(Ok(data_reply("00"))) {
        FetchStep::Done(data) => assert_eq!(data, vec![0]),
        _ => panic!("the node gave the data"),
    }

    let (_, waiting) = get_blob_request("https://m", "0xabcd");
    match waiting.answered(Err(failure("node down"))) {
        FetchStep::AskMirror { url, node_error, pending } => {
            assert_eq!(url, "https://m/blob/0xabcd");
            assert_eq!(node_error, failure("node down"));
            assert_eq!(pending.answered(Ok(vec![9])), Ok(vec![9]));
        }
        _ => panic!("the node failed"),
    }

    let (_, waiting) = get_blob_request("https://m", "abcd");
    match waiting.answered(Ok(data_reply("0"))) {
        FetchStep::AskMirror { node_error, pending, .. } => {
            assert_eq!(node_error, ClientError::Decode);
            assert_eq!(pending.answered(Err(failure("gone"))), Err(failure("gone")));
        }
        _ => panic!("the node's data does not decode"),
    }
}
