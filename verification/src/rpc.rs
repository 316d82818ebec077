//! The JSON-RPC envelope: what is posted to the node, and what its response
//! means.

use crate::error::{ClientError, ErrorModel};
use crate::json::{json_parsed, json_text, member_of, models, number_of, text_member};
use crate::json::{Json, JsonModel};
use crate::text::decimal_text;
use vstd::prelude::*;

verus! {

/// Where on the node a call is posted.
#[derive(Debug, Clone, Copy, PartialEq, Eq)]
pub enum Endpoint {
    /// The node's own path, for calls that concern no wallet.
    Node,
    /// The path of the client's wallet.
    Wallet,
}

/// A call to make: the method, its parameters in order, and where to post it.
#[derive(Debug, Clone, PartialEq)]
pub struct RpcRequest {
    pub method: String,
    pub params: Vec<Json>,
    pub endpoint: Endpoint,
}

/// What an [`RpcRequest`] holds.
pub struct RequestModel {
    pub method: Seq<char>,
    pub params: Seq<JsonModel>,
    pub endpoint: Endpoint,
}

impl View for RpcRequest {
    type V = RequestModel;

    open spec fn view(&self) -> RequestModel {
        RequestModel {
            method: self.method@,
            params: models(self.params@),
            endpoint: self.endpoint,
        }
    }
}

/// One exchange with the outside, and how it ended.
pub enum Exchange {
    /// A call that was posted to the node.
    Call { request: RequestModel, reply: Result<JsonModel, ErrorModel> },
    /// A plain GET.
    Download { url: Seq<char>, fetched: Result<Seq<u8>, ErrorModel> },
}

/// A transport: what posts calls to the node and fetches from the mirror.
///
/// The library decides what is asked and what an answer means; a transport
/// carries the bytes. Nothing is promised of what a transport answers: a
/// [`crate::client::SyscoinClient`] keeps account of each exchange it makes
/// through one, and states its results over that account.
pub trait RpcClient {
    /// Posts a call that concerns no wallet, and gives its outcome.
    fn call(&mut self, method: &str, params: &[Json]) -> Result<Json, ClientError>;

    /// Posts a call to the client's wallet, and gives its outcome.
    fn call_wallet(&mut self, method: &str, params: &[Json]) -> Result<Json, ClientError>;

    /// Fetches `url` with a plain GET.
    fn http_get(&mut self, url: &str) -> Result<Vec<u8>, ClientError>;
}

/// The exchanges that came after `before` in `after`.
pub open spec fn added_to(before: Seq<Exchange>, after: Seq<Exchange>) -> Seq<Exchange> {
    after.skip(before.len() as int)
}

/// Whether `added` is one call of `request`.
pub open spec fn is_call_of(added: Seq<Exchange>, request: RequestModel) -> bool {
    added.len() == 1 && added[0] is Call && added[0]->request == request
}

/// How many of `added` pass `test`.
pub open spec fn count_of(added: Seq<Exchange>, test: spec_fn(Exchange) -> bool) -> nat {
    added.filter(test).len()
}

/// Counting among one or two exchanges.
pub proof fn lemma_few_counted(added: Seq<Exchange>, test: spec_fn(Exchange) -> bool)
    ensures
        added.len() == 1 ==> count_of(added, test) == (if test(added[0]) {
            1nat
        } else {
            0nat
        }),
        added.len() == 2 ==> count_of(added, test) == (if test(added[0]) {
            1nat
        } else {
            0nat
        }) + (if test(added[1]) {
            1nat
        } else {
            0nat
        }),
{
    reveal_with_fuel(Seq::filter, 3);
    if added.len() == 1 {
        assert(added.drop_last() =~= Seq::<Exchange>::empty());
    } else if added.len() == 2 {
        let head = added.drop_last();
        assert(head.drop_last() =~= Seq::<Exchange>::empty());
        assert(head.last() == added[0]);
    }
}

/// The envelope of a call.
pub open spec fn envelope_of(method: Seq<char>, params: Seq<JsonModel>) -> JsonModel {
    JsonModel::Object(
        map![
            "jsonrpc"@ => JsonModel::Text("2.0"@),
            "id"@ => JsonModel::Number(decimal_text(1)),
            "method"@ => JsonModel::Text(method),
            "params"@ => JsonModel::Array(params),
        ],
    )
}

/// Whether a status is in the success range.
pub open spec fn is_success(status: u16) -> bool {
    200 <= status < 300
}

/// A member that is there and not `null`.
pub open spec fn present_member(document: JsonModel, key: Seq<char>) -> Option<JsonModel> {
    match member_of(document, key) {
        Some(member) => if member is Null {
            None
        } else {
            Some(member)
        },
        None => None,
    }
}

/// The node's own account of a failure, where the failure carries one: the
/// error value of an envelope, whether the envelope came with a status in the
/// success range or as the body of a failed status. A failure to reach the
/// node, a body that is no envelope, and a failure that the library itself
/// found carry none.
pub open spec fn node_error_of(error: ErrorModel) -> Option<JsonModel> {
    match error {
        ErrorModel::Application { error } => Some(error),
        ErrorModel::Http { status, body } => match json_parsed(body) {
            Ok(document) => present_member(document, "error"@),
            Err(_) => None,
        },
        _ => None,
    }
}

/// The code in the node's account of a failure: the number under `code`, as
/// the text that stands for it.
pub open spec fn error_code_of(report: JsonModel) -> Option<Seq<char>> {
    match member_of(report, "code"@) {
        Some(code) => number_of(code),
        None => None,
    }
}

/// The sentence in the node's account of a failure: the text under `message`.
pub open spec fn error_message_of(report: JsonModel) -> Option<Seq<char>> {
    text_member(report, "message"@)
}

/// What a parsed response body means: the node's error where it names one,
/// else its result, else the lack of both. Only an object is an envelope.
pub open spec fn envelope_outcome(document: JsonModel) -> Result<JsonModel, ErrorModel> {
    if !(document is Object) {
        Err(ErrorModel::Malformed { detail: "response body is not a JSON object"@ })
    } else if let Some(error) = present_member(document, "error"@) {
        Err(ErrorModel::Application { error })
    } else if let Some(result) = present_member(document, "result"@) {
        Ok(result)
    } else {
        Err(ErrorModel::MissingResult)
    }
}

/// What a response means: the status is judged first, then the body is
/// parsed, then the envelope is read.
pub open spec fn response_outcome(status: u16, body: Seq<char>) -> Result<JsonModel, ErrorModel> {
    if !is_success(status) {
        Err(ErrorModel::Http { status, body })
    } else {
        match json_parsed(body) {
            Err(complaint) => Err(ErrorModel::Malformed { detail: complaint }),
            Ok(document) => envelope_outcome(document),
        }
    }
}

/// What an outcome holds: the view of the value, or of the failure.
pub open spec fn outcome_model<T: View>(outcome: Result<T, ClientError>) -> Result<T::V, ErrorModel> {
    match outcome {
        Ok(value) => Ok(value@),
        Err(error) => Err(error@),
    }
}

/// What the response to a plain GET means.
pub open spec fn download_outcome(status: u16, payload: Seq<u8>) -> Result<Seq<u8>, ErrorModel> {
    if is_success(status) {
        Ok(payload)
    } else {
        Err(ErrorModel::Http { status, body: Seq::empty() })
    }
}

impl RpcRequest {
    /// A call of `method` with copies of `params`.
    pub fn new(method: &str, params: &[Json], endpoint: Endpoint) -> (request: RpcRequest)
        ensures
            request@ == (RequestModel { method: method@, params: models(params@), endpoint }),
    {
        let mut copies: Vec<Json> = Vec::new();
        let mut i: usize = 0;
        while i < params.len()
            invariant
                i <= params@.len(),
                copies@.len() == i,
                forall|k: int| 0 <= k < i ==> (#[trigger] copies@[k])@ == params@[k]@,
            decreases params@.len() - i,
        {
            copies.push(params[i].duplicate());
            i += 1;
        }
        proof {
            assert(models(copies@) =~= models(params@));
        }
        RpcRequest { method: method.to_owned(), params: copies, endpoint }
    }

    /// The envelope of the call.
    pub fn envelope(&self) -> (document: Json)
        ensures
            document@ == envelope_of(self@.method, self@.params),
    {
        Json::object().with("jsonrpc", Json::text("2.0")).with("id", Json::integer(1)).with(
            "method",
            Json::text(self.method.as_str()),
        ).with("params", Json::array(self.params.as_slice()))
    }

    /// The body to post: the envelope as compact text.
    pub fn body(&self) -> (text: String)
        ensures
            text@ == json_text(envelope_of(self@.method, self@.params)),
    {
        self.envelope().render()
    }
}

/// The node's own account of a failure, where the failure carries one.
pub fn node_error(error: &ClientError) -> (report: Option<Json>)
    ensures
        match report {
            Some(found) => node_error_of(error@) == Some(found@),
            None => node_error_of(error@) is None,
        },
{
    match error {
        ClientError::Application { error } => Some(error.duplicate()),
        ClientError::Http { status, body } => match Json::parse(body.as_str()) {
            Ok(document) => match document.member("error") {
                Some(member) => if member.is_null() {
                    None
                } else {
                    Some(member)
                },
                None => None,
            },
            Err(_) => None,
        },
        _ => None,
    }
}

/// The code in the node's account of a failure.
pub fn error_code(report: &Json) -> (code: Option<String>)
    ensures
        match code {
            Some(text) => error_code_of(report@) == Some(text@),
            None => error_code_of(report@) is None,
        },
{
    match report.member("code") {
        Some(code) => code.number_text(),
        None => None,
    }
}

/// The sentence in the node's account of a failure.
pub fn error_message(report: &Json) -> (message: Option<String>)
    ensures
        match message {
            Some(text) => error_message_of(report@) == Some(text@),
            None => error_message_of(report@) is None,
        },
{
    report.text_member("message")
}

/// Reads the envelope out of a parsed response body.
pub fn read_envelope(document: &Json) -> (outcome: Result<Json, ClientError>)
    ensures
        outcome_model(outcome) == envelope_outcome(document@),
{
    if !document.is_object() {
        return Err(
            ClientError::Malformed { detail: String::from_str("response body is not a JSON object") },
        );
    }
    if let Some(error) = document.member("error") {
        if !error.is_null() {
            return Err(ClientError::Application { error });
        }
    }
    if let Some(result) = document.member("result") {
        if !result.is_null() {
            return Ok(result);
        }
    }
    Err(ClientError::MissingResult)
}

/// Reads the response to a posted call.
///
/// A status outside the success range fails with the body as it came, unread.
/// Otherwise the body has to parse as JSON and to be an envelope; an error in
/// the envelope comes before its result.
pub fn read_response(status: u16, body: &str) -> (outcome: Result<Json, ClientError>)
    ensures
        outcome_model(outcome) == response_outcome(status, body@),
{
    if status < 200 || status >= 300 {
        return Err(ClientError::Http { status, body: body.to_owned() });
    }
    match Json::parse(body) {
        Err(complaint) => Err(ClientError::Malformed { detail: complaint }),
        Ok(document) => read_envelope(&document),
    }
}

/// Reads the response to a plain GET: the payload where the status is in the
/// success range. The body of a failure is not read.
pub fn read_download(status: u16, payload: Vec<u8>) -> (outcome: Result<Vec<u8>, ClientError>)
    ensures
        outcome_model(outcome) == download_outcome(status, payload@),
{
    if status < 200 || status >= 300 {
        Err(ClientError::Http { status, body: String::new() })
    } else {
        Ok(payload)
    }
}

} // verus!
