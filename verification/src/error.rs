//! The failures that a caller can be handed.

use crate::json::{json_text, Json, JsonModel};
use crate::text::{decimal, decimal_text};
use vstd::prelude::*;

verus! {

/// Why an operation did not give its result.
#[derive(Debug, Clone, PartialEq)]
pub enum ClientError {
    /// No response came: the connection failed or timed out.
    Transport { detail: String },
    /// The response's status is outside the success range. The body is kept as
    /// it came.
    Http { status: u16, body: String },
    /// The response's body is not a JSON-RPC envelope, or a result is not of
    /// the shape that the method gives.
    Malformed { detail: String },
    /// The node answered with its own error, kept whole.
    Application { error: Json },
    /// The envelope holds neither a result nor an error.
    MissingResult,
    /// The result lacks a field, or holds something else than text under it.
    MissingField { field: String },
    /// The payload is larger than the node accepts.
    PayloadTooLarge { actual: usize, max: usize },
    /// Blob data that is not hexadecimal text.
    Decode,
}

/// What a [`ClientError`] holds.
pub enum ErrorModel {
    Transport { detail: Seq<char> },
    Http { status: u16, body: Seq<char> },
    Malformed { detail: Seq<char> },
    Application { error: JsonModel },
    MissingResult,
    MissingField { field: Seq<char> },
    PayloadTooLarge { actual: nat, max: nat },
    Decode,
}

impl View for ClientError {
    type V = ErrorModel;

    open spec fn view(&self) -> ErrorModel {
        match *self {
            ClientError::Transport { detail } => ErrorModel::Transport { detail: detail@ },
            ClientError::Http { status, body } => ErrorModel::Http { status, body: body@ },
            ClientError::Malformed { detail } => ErrorModel::Malformed { detail: detail@ },
            ClientError::Application { error } => ErrorModel::Application { error: error@ },
            ClientError::MissingResult => ErrorModel::MissingResult,
            ClientError::MissingField { field } => ErrorModel::MissingField { field: field@ },
            ClientError::PayloadTooLarge { actual, max } => ErrorModel::PayloadTooLarge {
                actual: actual as nat,
                max: max as nat,
            },
            ClientError::Decode => ErrorModel::Decode,
        }
    }
}

/// The sentence that describes a failure.
pub open spec fn message_of(error: ErrorModel) -> Seq<char> {
    match error {
        ErrorModel::Transport { detail } => detail,
        ErrorModel::Http { status, body } => "HTTP error: "@ + decimal_text(status as nat)
            + " returned body: "@ + body,
        ErrorModel::Malformed { detail } => detail,
        ErrorModel::Application { error } => "RPC error: "@ + json_text(error),
        ErrorModel::MissingResult => "missing result in JSON-RPC response"@,
        ErrorModel::MissingField { field } => "Missing "@ + field,
        ErrorModel::PayloadTooLarge { actual, max } => "blob size ("@ + decimal_text(actual)
            + ") exceeds maximum allowed ("@ + decimal_text(max) + ")"@,
        ErrorModel::Decode => "blob data is not hexadecimal"@,
    }
}

impl ClientError {
    /// The sentence that describes the failure.
    pub fn message(&self) -> (text: String)
        ensures
            text@ == message_of(self@),
    {
        match self {
            ClientError::Transport { detail } => detail.clone(),
            ClientError::Http { status, body } => {
                let mut text = String::from_str("HTTP error: ");
                text.append(decimal(*status as u64).as_str());
                text.append(" returned body: ");
                text.append(body.as_str());
                text
            },
            ClientError::Malformed { detail } => detail.clone(),
            ClientError::Application { error } => {
                let mut text = String::from_str("RPC error: ");
                text.append(error.render().as_str());
                text
            },
            ClientError::MissingResult => String::from_str("missing result in JSON-RPC response"),
            ClientError::MissingField { field } => {
                let mut text = String::from_str("Missing ");
                text.append(field.as_str());
                text
            },
            ClientError::PayloadTooLarge { actual, max } => {
                let mut text = String::from_str("blob size (");
                text.append(decimal(*actual as u64).as_str());
                text.append(") exceeds maximum allowed (");
                text.append(decimal(*max as u64).as_str());
                text.append(")");
                text
            },
            ClientError::Decode => String::from_str("blob data is not hexadecimal"),
        }
    }
}

} // verus!
