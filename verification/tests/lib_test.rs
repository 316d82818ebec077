use bitcoin_da_client::blob::MAX_BLOB_SIZE;
use bitcoin_da_client::client::{RealRpcClient, SyscoinClient};
use bitcoin_da_client::error::ClientError;
use bitcoin_da_client::json::Json;
use bitcoin_da_client::rpc::{read_download, read_response, Endpoint, RpcClient, RpcRequest};

/// A node and a mirror that answer as a test tells them to: every POST with
/// one status and body, every GET of a known address with its payload.
struct Server {
    node: RealRpcClient,
    post: Option<(u16, String)>,
    gets: Vec<(String, u16, Vec<u8>)>,
    posted: Vec<String>,
    fetched: Vec<String>,
}

impl Server {
    fn new() -> Server {
        Server {
            node: RealRpcClient::new("http://127.0.0.1:1234", "user", "password", None, "w"),
            post: None,
            gets: Vec::new(),
            posted: Vec::new(),
            fetched: Vec::new(),
        }
    }

    fn url(&self) -> String {
        self.node.rpc_url.clone()
    }

    fn post(&mut self, method: &str, params: &[Json], endpoint: Endpoint) -> Result<Json, ClientError> {
        let request = RpcRequest::new(method, params, endpoint);
        let sent = self.node.post(&request);
        self.posted.push(sent.body);
        match &self.post {
            Some((status, body)) => read_response(*status, body),
            None => Err(ClientError::Transport { detail: "connection refused".to_string() }),
        }
    }
}

impl RpcClient for Server {
    fn call(&mut self, method: &str, params: &[Json]) -> Result<Json, ClientError> {
        self.post(method, params, Endpoint::Node)
    }

    fn call_wallet(&mut self, method: &str, params: &[Json]) -> Result<Json, ClientError> {
        self.post(method, params, Endpoint::Wallet)
    }

    fn http_get(&mut self, url: &str) -> Result<Vec<u8>, ClientError> {
        self.fetched.push(url.to_string());
        for (known, status, payload) in &self.gets {
            if known == url {
                return read_download(*status, payload.clone());
            }
        }
        read_download(501, Vec::new())
    }
}

#[test]
fn test_syscoin_client_creation() {
    let node = RealRpcClient::new("http://localhost:8888", "user", "password", Some(30_000), "wallet");
    assert_eq!(node.timeout_millis, 30_000);
    assert_eq!(node.rpc_url, "http://localhost:8888");
    let client = SyscoinClient::new(node_transport(node), "http://poda.example.com");
    assert_eq!(client.poda_url(), "http://poda.example.com");
}

#[test]
fn test_get_balance() {
    let mut server = Server::new();
    server.post = Some((200, "{\"result\":100.5,\"error\":null}".to_string()));
    let mut client = SyscoinClient::new(server, "http://poda.example.com");

    let balance = client.get_balance();

    assert!(balance.is_ok());
    let expected_balance = 100.5;
    assert_eq!(balance.unwrap().parse::<f64>().unwrap(), expected_balance);
}

#[test]
fn test_create_blob() {
    let expected_hash = "deadbeef";
    let mut server = Server::new();
    server.post =
        Some((200, "{\"result\":{\"versionhash\":\"deadbeef\"},\"error\":null,\"id\":1}".to_string()));
    let mut client = SyscoinClient::new(server, "http://poda.example.com");

    let result = client.create_blob(&[1, 2, 3, 4]);

    assert!(result.is_ok());
    assert_eq!(result.unwrap(), expected_hash);
    let server = client.into_transport();
    assert_eq!(
        server.posted,
        vec![
            "{\"id\":1,\"jsonrpc\":\"2.0\",\"method\":\"syscoincreatenevmblob\",\"params\":[\"01020304\"]}"
                .to_string()
        ]
    );
}

#[test]
fn test_get_blob_from_cloud() {
    let expected_data = b"retrieved data".to_vec();
    let version_hash = "deadbeef";
    let mut server = Server::new();
    let mirror = server.url();
    server.gets.push((format!("{}/blob/{}", mirror, version_hash), 200, expected_data.clone()));
    server.post = Some((500, "RPC error".to_string()));
    let mut client = SyscoinClient::new(server, &mirror);

    let result = client.get_blob(version_hash);

    assert!(result.is_ok(), "Error: {:?}", result.err());
    assert_eq!(result.unwrap(), expected_data);
}

#[test]
fn test_create_or_load_wallet() {
    let wallet_name = "test_wallet";
    let mut server = Server::new();
    server.post = Some((200, "{\"result\":{},\"error\":null,\"id\":1}".to_string()));
    let mut client = SyscoinClient::new(server, "http://poda.example.com");

    let result = client.create_or_load_wallet(wallet_name);

    assert!(result.is_ok());
}

#[test]
fn test_error_handling() {
    let mut server = Server::new();
    server.post = Some((
        400,
        "{\"result\":{},\"error\":{\"code\":-32601,\"message\":\"Method not found\"}}".to_string(),
    ));
    let mut client = SyscoinClient::new(server, "http://poda.example.com");

    let result = client.get_balance();

    assert!(result.is_err());
    assert_eq!(
        result,
        Err(ClientError::Http {
            status: 400,
            body: "{\"result\":{},\"error\":{\"code\":-32601,\"message\":\"Method not found\"}}"
                .to_string()
        })
    );
}

#[test]
fn test_rpc_request_invalid_json() {
    let mut server = Server::new();
    server.post = Some((200, "Not a JSON".to_string()));
    let mut client = SyscoinClient::new(server, "http://poda.example.com");

    let result = client.create_blob(&[1, 2, 3, 4]);

    println!("Result: {:?}", result);
    assert!(result.is_err());
    assert!(matches!(result, Err(ClientError::Malformed { .. })));
}

#[test]
fn test_get_blob() {
    let expected_data = b"hello world blob data".to_vec();
    let hex_data = hex::encode(&expected_data);
    let blob_id = "deadbeef123";
    let mut server = Server::new();
    let mirror = server.url();
    server.post =
        Some((200, format!("{{\"result\":{{\"data\":\"{}\"}},\"error\":null,\"id\":1}}", hex_data)));
    server.gets.push((format!("{}/{}", mirror, blob_id), 200, expected_data.clone()));
    let mut client = SyscoinClient::new(server, &mirror);

    println!("Server URL: {}", mirror);
    println!("Blob ID: {}", blob_id);

    let result = client.get_blob(blob_id);

    assert!(result.is_ok(), "Error: {:?}", result.err());
    assert_eq!(result.unwrap(), expected_data);
    assert!(client.into_transport().fetched.is_empty());
}

#[test]
fn test_max_blob_size() {
    let node = RealRpcClient::new("http://dummy-url.com", "user", "password", None, "wallet");
    let client = SyscoinClient::new(node_transport(node), "http://dummy-poda.com");

    assert_eq!(client.max_blob_size(), MAX_BLOB_SIZE);
    assert_eq!(client.max_blob_size(), 2 * 1024 * 1024);
}

fn node_transport(node: RealRpcClient) -> Server {
    let mut server = Server::new();
    server.node = node;
    server
}
