//! Client-side protocol of a blob store that is anchored on a blockchain node:
//! what to ask the node and its cloud mirror, and what each answer means.
//!
//! Every operation is split at the network. One function builds the exchange
//! to perform, another reads its outcome; neither performs input or output,
//! so a caller with its own event loop can carry the bytes itself. A
//! [`client::SyscoinClient`] joins the two halves over a [`rpc::RpcClient`],
//! and states what it returns over the exchanges that it made.

pub mod blob;
pub mod client;
pub mod encoding;
pub mod error;
pub mod fallback;
pub mod funding;
pub mod json;
pub mod mock;
pub mod rpc;
pub mod text;
pub mod wallet;
