//! The client, and what it is made with.
//!
//! A [`RealRpcClient`] says how to reach a node and turns calls into HTTP
//! requests, without sending them. A [`SyscoinClient`] works through a
//! transport and keeps account of every exchange that it makes.

use crate::error::ClientError;
use crate::json::{json_text, models, Json};
use crate::rpc::{envelope_of, outcome_model, Endpoint, Exchange, RpcClient, RpcRequest};
use crate::text::{trim_trailing_slashes, without_trailing_slashes};
use vstd::prelude::*;

verus! {

/// The seconds a request may take where the caller names no limit.
pub const DEFAULT_TIMEOUT_SECS: u64 = 30;

/// The same limit in milliseconds, the unit that time limits are held in.
pub const DEFAULT_TIMEOUT_MILLIS: u64 = DEFAULT_TIMEOUT_SECS * 1000;

/// How to reach the node: its address, the credentials for basic
/// authentication, the time limit of a request in milliseconds, and the
/// wallet to work with.
#[derive(Debug, Clone, PartialEq, Eq)]
pub struct RealRpcClient {
    pub rpc_url: String,
    pub rpc_user: String,
    pub rpc_password: String,
    pub timeout_millis: u64,
    pub wallet_name: String,
}

/// An HTTP POST to perform, with basic authentication.
#[derive(Debug, Clone, PartialEq, Eq)]
pub struct HttpPost {
    pub url: String,
    pub user: String,
    pub password: String,
    pub body: String,
    pub timeout_millis: u64,
}

/// A client of the blob store: a transport to the node and the mirror, the
/// mirror's address, and the account of the exchanges made so far.
pub struct SyscoinClient<C: RpcClient> {
    rpc_client: C,
    poda_url: String,
    history: Ghost<Seq<Exchange>>,
}

/// The time limit that a client is made with.
pub open spec fn timeout_or_default(timeout: Option<u64>) -> u64 {
    match timeout {
        Some(millis) => millis,
        None => DEFAULT_TIMEOUT_MILLIS,
    }
}

/// The address that a call is posted to: the node's own for calls that concern
/// no wallet; for the others the node's address without the slashes at its
/// end, then `/wallet/` and the wallet's name.
pub open spec fn url_of(rpc_url: Seq<char>, wallet_name: Seq<char>, endpoint: Endpoint) -> Seq<
    char,
> {
    match endpoint {
        Endpoint::Node => rpc_url,
        Endpoint::Wallet => without_trailing_slashes(rpc_url) + "/wallet/"@ + wallet_name,
    }
}

impl RealRpcClient {
    /// The node at `rpc_url`, with the default time limit where `timeout` is `None`.
    pub fn new(
        rpc_url: &str,
        rpc_user: &str,
        rpc_password: &str,
        timeout: Option<u64>,
        wallet_name: &str,
    ) -> (client: RealRpcClient)
        ensures
            client.rpc_url@ == rpc_url@,
            client.rpc_user@ == rpc_user@,
            client.rpc_password@ == rpc_password@,
            client.timeout_millis == timeout_or_default(timeout),
            client.wallet_name@ == wallet_name@,
    {
        RealRpcClient::new_with_timeout(rpc_url, rpc_user, rpc_password, timeout, wallet_name)
    }

    /// The node at `rpc_url`, with `timeout` milliseconds as the time limit of each
    /// request, or the default where it is `None`.
    pub fn new_with_timeout(
        rpc_url: &str,
        rpc_user: &str,
        rpc_password: &str,
        timeout: Option<u64>,
        wallet_name: &str,
    ) -> (client: RealRpcClient)
        ensures
            client.rpc_url@ == rpc_url@,
            client.rpc_user@ == rpc_user@,
            client.rpc_password@ == rpc_password@,
            client.timeout_millis == timeout_or_default(timeout),
            client.wallet_name@ == wallet_name@,
    {
        let timeout_millis = match timeout {
            Some(millis) => millis,
            None => DEFAULT_TIMEOUT_MILLIS,
        };
        RealRpcClient {
            rpc_url: rpc_url.to_owned(),
            rpc_user: rpc_user.to_owned(),
            rpc_password: rpc_password.to_owned(),
            timeout_millis,
            wallet_name: wallet_name.to_owned(),
        }
    }

    /// The address that calls for `endpoint` are posted to.
    pub fn endpoint_url(&self, endpoint: Endpoint) -> (url: String)
        ensures
            url@ == url_of(self.rpc_url@, self.wallet_name@, endpoint),
    {
        match endpoint {
            Endpoint::Node => self.rpc_url.clone(),
            Endpoint::Wallet => {
                let mut url = trim_trailing_slashes(self.rpc_url.as_str()).to_owned();
                url.append("/wallet/");
                url.append(self.wallet_name.as_str());
                url
            },
        }
    }

    /// The HTTP request that carries `request`.
    pub fn post(&self, request: &RpcRequest) -> (post: HttpPost)
        ensures
            post.url@ == url_of(self.rpc_url@, self.wallet_name@, request.endpoint),
            post.user@ == self.rpc_user@,
            post.password@ == self.rpc_password@,
            post.body@ == json_text(envelope_of(request@.method, request@.params)),
            post.timeout_millis == self.timeout_millis,
    {
        HttpPost {
            url: self.endpoint_url(request.endpoint),
            user: self.rpc_user.clone(),
            password: self.rpc_password.clone(),
            body: request.body(),
            timeout_millis: self.timeout_millis,
        }
    }

    /// The HTTP request of a call that concerns no wallet.
    pub fn rpc_request(&self, method: &str, params: &[Json]) -> (post: HttpPost)
        ensures
            post.url@ == self.rpc_url@,
            post.user@ == self.rpc_user@,
            post.password@ == self.rpc_password@,
            post.body@ == json_text(envelope_of(method@, models(params@))),
            post.timeout_millis == self.timeout_millis,
    {
        let request = RpcRequest::new(method, params, Endpoint::Node);
        self.post(&request)
    }

    /// The HTTP request of a call to the client's wallet.
    pub fn wallet_rpc_request(&self, method: &str, params: &[Json]) -> (post: HttpPost)
        ensures
            post.url@ == url_of(self.rpc_url@, self.wallet_name@, Endpoint::Wallet),
            post.user@ == self.rpc_user@,
            post.password@ == self.rpc_password@,
            post.body@ == json_text(envelope_of(method@, models(params@))),
            post.timeout_millis == self.timeout_millis,
    {
        let request = RpcRequest::new(method, params, Endpoint::Wallet);
        self.post(&request)
    }
}

impl<C: RpcClient> SyscoinClient<C> {
    /// A client that works through `rpc_client`, with the mirror at
    /// `poda_url`. It has made no exchange yet.
    pub fn new(rpc_client: C, poda_url: &str) -> (client: SyscoinClient<C>)
        ensures
            client.transport() == rpc_client,
            client.mirror() == poda_url@,
            client.history() == Seq::<Exchange>::empty(),
    {
        SyscoinClient { rpc_client, poda_url: poda_url.to_owned(), history: Ghost(Seq::empty()) }
    }

    /// The transport that the client works through, as it is now. Each
    /// exchange may change it: of that nothing is known.
    pub closed spec fn transport(&self) -> C {
        self.rpc_client
    }

    /// The address of the mirror.
    pub closed spec fn mirror(&self) -> Seq<char> {
        self.poda_url@
    }

    /// The exchanges that the client has made through its transport, the
    /// oldest first.
    pub closed spec fn history(&self) -> Seq<Exchange> {
        self.history@
    }

    /// The address of the mirror.
    pub fn poda_url(&self) -> (url: &str)
        ensures
            url@ == self.mirror(),
    {
        self.poda_url.as_str()
    }

    /// Ends the client and hands out the transport that it worked through, in
    /// the state that the exchanges left it in.
    pub fn into_transport(self) -> (transport: C)
        ensures
            transport == self.transport(),
    {
        self.rpc_client
    }

    /// Hands `request` to the transport, by the method for its endpoint, and
    /// notes the exchange.
    pub(crate) fn send(&mut self, request: &RpcRequest) -> (reply: Result<Json, ClientError>)
        ensures
            final(self).mirror() == old(self).mirror(),
            final(self).history() == old(self).history().push(
                Exchange::Call { request: request@, reply: outcome_model(reply) },
            ),
    {
        let reply = match request.endpoint {
            Endpoint::Node => self.rpc_client.call(
                request.method.as_str(),
                request.params.as_slice(),
            ),
            Endpoint::Wallet => self.rpc_client.call_wallet(
                request.method.as_str(),
                request.params.as_slice(),
            ),
        };
        self.history = Ghost(
            self.history@.push(Exchange::Call { request: request@, reply: outcome_model(reply) }),
        );
        reply
    }

    /// Has the transport fetch `url`, and notes the exchange.
    pub(crate) fn download(&mut self, url: &str) -> (reply: Result<Vec<u8>, ClientError>)
        ensures
            final(self).mirror() == old(self).mirror(),
            final(self).history() == old(self).history().push(
                Exchange::Download { url: url@, fetched: outcome_model(reply) },
            ),
    {
        let reply = self.rpc_client.http_get(url);
        self.history = Ghost(
            self.history@.push(Exchange::Download { url: url@, fetched: outcome_model(reply) }),
        );
        reply
    }
}

} // verus!
