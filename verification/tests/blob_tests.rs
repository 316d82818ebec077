use bitcoin_da_client::blob::{
    blob_data_reply, blob_request, create_blob_reply, create_blob_request, finality_reply,
    mirror_address, MAX_BLOB_SIZE,
};
use bitcoin_da_client::client::SyscoinClient;
use bitcoin_da_client::error::ClientError;
use bitcoin_da_client::json::Json;
use bitcoin_da_client::rpc::{Endpoint, RpcClient};

/// A transport that answers from a list, in order, and notes what it was asked.
struct Script {
    replies: Vec<Result<Json, ClientError>>,
    downloads: Vec<Result<Vec<u8>, ClientError>>,
    asked: Vec<String>,
}

impl Script {
    fn new(replies: Vec<Result<Json, ClientError>>) -> Script {
        Script { replies, downloads: Vec::new(), asked: Vec::new() }
    }

    fn note(&mut self, path: &str, method: &str, params: &[Json]) -> Result<Json, ClientError> {
        self.asked.push(format!("{} {} {}", path, method, Json::array(params).render()));
        if self.replies.is_empty() {
            panic!("the transport was asked more often than the script allows");
        }
        self.replies.remove(0)
    }
}

impl RpcClient for Script {
    fn call(&mut self, method: &str, params: &[Json]) -> Result<Json, ClientError> {
        self.note("node", method, params)
    }

    fn call_wallet(&mut self, method: &str, params: &[Json]) -> Result<Json, ClientError> {
        self.note("wallet", method, params)
    }

    fn http_get(&mut self, url: &str) -> Result<Vec<u8>, ClientError> {
        self.asked.push(format!("get {}", url));
        if self.downloads.is_empty() {
            panic!("the transport was asked for more downloads than the script allows");
        }
        self.downloads.remove(0)
    }
}

fn failure(message: &str) -> ClientError {
    ClientError::Transport { detail: message.to_string() }
}

fn handle_reply(handle: &str) -> Json {
    Json::object().with("versionhash", Json::text(handle))
}

#[test]
fn create_blob_request_sends_hex_to_the_wallet() {
    let request = create_blob_request(&[1, 2, 3, 4]).unwrap();
    assert_eq!(request.method, "syscoincreatenevmblob");
    assert_eq!(request.params, vec![Json::text("01020304")]);
    assert_eq!(request.endpoint, Endpoint::Wallet);
    let empty = create_blob_request(&[]).unwrap();
    assert_eq!(empty.params, vec![Json::text("")]);
}

#[test]
fn create_blob_request_accepts_the_limit_and_no_more() {
    let at_limit = vec![7u8; MAX_BLOB_SIZE];
    assert!(create_blob_request(&at_limit).is_ok());
    let over = vec![7u8; MAX_BLOB_SIZE + 1];
    assert_eq!(
        create_blob_request(&over),
        Err(ClientError::PayloadTooLarge { actual: MAX_BLOB_SIZE + 1, max: MAX_BLOB_SIZE })
    );
}

#[test]
fn create_blob_gives_the_node_handle_unchanged() {
    for handle in ["deadbeef", "0xDEADbeef", "", "not even hex"] {
        let mut client = SyscoinClient::new(Script::new(vec![Ok(handle_reply(handle))]), "m");
        assert_eq!(client.create_blob(&[1, 2, 3, 4]), Ok(handle.to_string()));
        assert_eq!(
            client.into_transport().asked,
            vec!["wallet syscoincreatenevmblob [\"01020304\"]".to_string()]
        );
    }
}

#[test]
fn create_blob_at_the_limit_is_sent() {
    let data = vec![0xabu8; MAX_BLOB_SIZE];
    let mut client = SyscoinClient::new(Script::new(vec![Ok(handle_reply("h"))]), "m");
    assert_eq!(client.create_blob(&data), Ok("h".to_string()));
    assert_eq!(client.into_transport().asked.len(), 1);
}

#[test]
fn create_blob_over_the_limit_sends_nothing() {
    // The script is empty: a call would panic.
    let mut client = SyscoinClient::new(Script::new(vec![]), "m");
    let data = vec![0u8; MAX_BLOB_SIZE + 1];
    assert_eq!(
        client.create_blob(&data),
        Err(ClientError::PayloadTooLarge { actual: 2097153, max: 2097152 })
    );
    assert!(client.into_transport().asked.is_empty());
}

#[test]
fn create_blob_hands_on_the_failure_of_the_call() {
    let mut client = SyscoinClient::new(Script::new(vec![Err(failure("timed out"))]), "m");
    assert_eq!(client.create_blob(&[1]), Err(failure("timed out")));
}

#[test]
fn create_blob_reply_wants_text_under_versionhash() {
    assert_eq!(create_blob_reply(Ok(handle_reply("deadbeef"))), Ok("deadbeef".to_string()));
    let missing = Err(ClientError::MissingField { field: "versionhash".to_string() });
    assert_eq!(create_blob_reply(Ok(Json::object())), missing);
    assert_eq!(create_blob_reply(Ok(Json::text("deadbeef"))), missing);
    assert_eq!(create_blob_reply(Ok(Json::object().with("versionhash", Json::integer(1)))), missing);
    assert_eq!(create_blob_reply(Ok(Json::object().with("data", Json::text("x")))), missing);
    assert_eq!(create_blob_reply(Err(ClientError::MissingResult)), Err(ClientError::MissingResult));
}

#[test]
fn blob_request_names_the_handle_without_prefix() {
    let with_data = blob_request("0xdeadbeef", true);
    assert_eq!(with_data.method, "getnevmblobdata");
    assert_eq!(with_data.endpoint, Endpoint::Node);
    assert_eq!(with_data.params.len(), 1);
    assert_eq!(
        with_data.params[0].render(),
        "{\"getdata\":true,\"versionhash_or_txid\":\"deadbeef\"}"
    );
    let without = blob_request("deadbeef", false);
    assert_eq!(without.params[0].render(), "{\"versionhash_or_txid\":\"deadbeef\"}");
}

#[test]
fn prefixed_and_plain_handles_ask_the_same() {
    assert_eq!(blob_request("0xdeadbeef", true), blob_request("deadbeef", true));
    assert_eq!(blob_request("0xdeadbeef", false), blob_request("deadbeef", false));
    assert_ne!(blob_request("0x0xab", true), blob_request("0xab", true));
}

#[test]
fn blob_data_reply_decodes_the_data() {
    let reply = |data: &str| Ok(Json::object().with("data", Json::text(data)));
    assert_eq!(blob_data_reply(reply("68656c6c6f")), Ok(b"hello".to_vec()));
    assert_eq!(blob_data_reply(reply("0x68656c6c6f")), Ok(b"hello".to_vec()));
    assert_eq!(blob_data_reply(reply("0x68656C6C6F")), Ok(b"hello".to_vec()));
    assert_eq!(blob_data_reply(reply("")), Ok(vec![]));
    assert_eq!(blob_data_reply(reply("0x")), Ok(vec![]));
}

#[test]
fn blob_data_reply_names_each_failure() {
    let reply = |data: &str| Ok(Json::object().with("data", Json::text(data)));
    assert_eq!(blob_data_reply(reply("123")), Err(ClientError::Decode));
    assert_eq!(blob_data_reply(reply("zz")), Err(ClientError::Decode));
    assert_eq!(blob_data_reply(reply("0x0x12")), Err(ClientError::Decode));
    let missing = Err(ClientError::MissingField { field: "data".to_string() });
    assert_eq!(blob_data_reply(Ok(Json::object())), missing);
    assert_eq!(blob_data_reply(Ok(Json::object().with("data", Json::integer(1)))), missing);
    assert_eq!(blob_data_reply(Ok(Json::null())), missing);
    assert_eq!(blob_data_reply(Err(failure("down"))), Err(failure("down")));
}

#[test]
fn finality_defaults_to_false() {
    let reply = |flag: Json| Ok(Json::object().with("chainlock", flag));
    assert_eq!(finality_reply(reply(Json::boolean(true))), Ok(true));
    assert_eq!(finality_reply(reply(Json::boolean(false))), Ok(false));
    assert_eq!(finality_reply(reply(Json::text("true"))), Ok(false));
    assert_eq!(finality_reply(Ok(Json::object())), Ok(false));
    assert_eq!(finality_reply(Ok(Json::null())), Ok(false));
    assert_eq!(finality_reply(Err(ClientError::MissingResult)), Err(ClientError::MissingResult));
}

#[test]
fn check_blob_finality_asks_without_data() {
    let reply = Json::object().with("chainlock", Json::boolean(true));
    let mut client = SyscoinClient::new(Script::new(vec![Ok(reply)]), "m");
    assert_eq!(client.check_blob_finality("0xabcd"), Ok(true));
    assert_eq!(
        client.into_transport().asked,
        vec!["node getnevmblobdata [{\"versionhash_or_txid\":\"abcd\"}]".to_string()]
    );
}

#[test]
fn get_blob_from_rpc_asks_the_node_once() {
    let reply = Json::object().with("data", Json::text("0102"));
    let mut client = SyscoinClient::new(Script::new(vec![Ok(reply)]), "m");
    assert_eq!(client.get_blob_from_rpc("0xabcd"), Ok(vec![1, 2]));
    assert_eq!(
        client.into_transport().asked,
        vec!["node getnevmblobdata [{\"getdata\":true,\"versionhash_or_txid\":\"abcd\"}]".to_string()]
    );
}

#[test]
fn mirror_address_uses_the_handle_as_given() {
    assert_eq!(mirror_address("https://poda.example", "0xdead"), "https://poda.example/blob/0xdead");
    assert_eq!(mirror_address("https://poda.example/vh/", "dead"), "https://poda.example/vh//blob/dead");
    assert_eq!(mirror_address("", ""), "/blob/");
}

#[test]
fn get_blob_from_cloud_gives_what_the_mirror_gives() {
    let mut script = Script::new(vec![]);
    script.downloads = vec![Ok(b"payload".to_vec()), Err(failure("unreachable"))];
    let mut client = SyscoinClient::new(script, "https://poda.example");
    assert_eq!(client.get_blob_from_cloud("0xdead"), Ok(b"payload".to_vec()));
    assert_eq!(client.get_blob_from_cloud("beef"), Err(failure("unreachable")));
    assert_eq!(
        client.into_transport().asked,
        vec![
            "get https://poda.example/blob/0xdead".to_string(),
            "get https://poda.example/blob/beef".to_string()
        ]
    );
}
