//! Making the wallet usable: load it, and create it where the node has none.
//!
//! The node offers no call that does both. So the load is tried first, and a
//! failure is read for what the node says in it: that the wallet is loaded
//! already, that it does not exist yet, or anything else, which is fatal.
//! Only the node's own account of a failure is read. A failure that carries
//! none (the node was not reached, the answer was no envelope) is fatal
//! whatever its words. [`wallet_state`] is the one place where that reading
//! is done.

use crate::client::{RealRpcClient, SyscoinClient};
use crate::error::{ClientError, ErrorModel};
use crate::json::{models, Json, JsonModel};
use crate::rpc::{
    added_to, count_of, error_code, error_code_of, error_message, error_message_of,
    lemma_few_counted, node_error, node_error_of, outcome_model, Endpoint, Exchange,
    RequestModel, RpcClient, RpcRequest,
};
use crate::text::{contains, occurs_in, same};
use vstd::prelude::*;

verus! {

/// What is known of the wallet.
#[derive(Debug, Clone, Copy, PartialEq, Eq)]
pub enum WalletState {
    /// No load was tried yet, or one failed without saying how to go on.
    Unknown,
    /// The load succeeded.
    Loaded,
    /// The node has no such wallet: it has to be created.
    AbsentNeedsCreate,
    /// The wallet was loaded before, which is as good as loading it.
    AlreadyLoadedElsewhere,
}

/// Whether the node's account of a failure says that the wallet is loaded
/// already: its message holds those words.
pub open spec fn says_already_loaded(report: JsonModel) -> bool {
    match error_message_of(report) {
        Some(message) => occurs_in("already loaded"@, message),
        None => false,
    }
}

/// Whether the node's account of a failure says that there is no such
/// wallet. Where the account names a code, the code decides: it has to be
/// the node's code for a wallet that is not found, `-18`. Only an account
/// without a code is judged by its message, which then has to hold `failed`.
pub open spec fn says_not_found(report: JsonModel) -> bool {
    match error_code_of(report) {
        Some(code) => code == "-18"@,
        None => match error_message_of(report) {
            Some(message) => occurs_in("failed"@, message),
            None => false,
        },
    }
}

/// What the node's account of a failed load says of the wallet. That it is
/// loaded already is looked for first.
pub open spec fn reported_state(report: JsonModel) -> WalletState {
    if says_already_loaded(report) {
        WalletState::AlreadyLoadedElsewhere
    } else if says_not_found(report) {
        WalletState::AbsentNeedsCreate
    } else {
        WalletState::Unknown
    }
}

/// What the answer to a load says of the wallet: a success that it is
/// loaded, a failure what the node's account of it says, and a failure
/// without such an account nothing.
pub open spec fn wallet_state_of(reply: Result<JsonModel, ErrorModel>) -> WalletState {
    match reply {
        Ok(_) => WalletState::Loaded,
        Err(error) => match node_error_of(error) {
            Some(report) => reported_state(report),
            None => WalletState::Unknown,
        },
    }
}

/// A call about the wallet `wallet_name`, which is its one parameter. Such a
/// call goes to the node's own path.
pub open spec fn wallet_request(method: Seq<char>, wallet_name: Seq<char>) -> RequestModel {
    RequestModel { method, params: seq![JsonModel::Text(wallet_name)], endpoint: Endpoint::Node }
}

/// What follows the node's answer to a load.
pub enum WalletStep {
    /// The wallet is usable. Nothing more is sent.
    Ready,
    /// The wallet has to be created: send `request`, and hand the answer to `pending`.
    Create { request: RpcRequest, pending: WalletCreation },
    /// The load failed for good, with the error that the call gave.
    Failed(ClientError),
}

/// What a [`WalletStep`] holds.
pub enum WalletStepModel {
    Ready,
    Create(RequestModel),
    Failed(ErrorModel),
}

impl View for WalletStep {
    type V = WalletStepModel;

    open spec fn view(&self) -> WalletStepModel {
        match *self {
            WalletStep::Ready => WalletStepModel::Ready,
            WalletStep::Create { request, pending } => WalletStepModel::Create(request@),
            WalletStep::Failed(error) => WalletStepModel::Failed(error@),
        }
    }
}

/// What follows the answer to the load of `wallet_name`.
pub open spec fn load_step(wallet_name: Seq<char>, reply: Result<JsonModel, ErrorModel>)
    -> WalletStepModel {
    match wallet_state_of(reply) {
        WalletState::Loaded => WalletStepModel::Ready,
        WalletState::AlreadyLoadedElsewhere => WalletStepModel::Ready,
        WalletState::AbsentNeedsCreate => WalletStepModel::Create(
            wallet_request("createwallet"@, wallet_name),
        ),
        WalletState::Unknown => WalletStepModel::Failed(reply->Err_0),
    }
}

/// How a creation ends: well where the call succeeded, else with its error.
pub open spec fn creation_outcome(reply: Result<JsonModel, ErrorModel>) -> Result<(), ErrorModel> {
    match reply {
        Ok(_) => Ok(()),
        Err(error) => Err(error),
    }
}

/// Whether `added` and `outcome` are what making the wallet `wallet_name`
/// usable comes to: the load; after it a creation, where the load's answer
/// asks for one, and nothing else; and the outcome that the answers give.
pub open spec fn is_wallet_run(
    wallet_name: Seq<char>,
    added: Seq<Exchange>,
    outcome: Result<(), ErrorModel>,
) -> bool {
    &&& added.len() >= 1
    &&& added[0] is Call
    &&& added[0]->request == wallet_request("loadwallet"@, wallet_name)
    &&& match load_step(wallet_name, added[0]->reply) {
        WalletStepModel::Ready => added.len() == 1 && outcome == Ok::<(), ErrorModel>(()),
        WalletStepModel::Failed(error) => added.len() == 1 && outcome == Err::<(), ErrorModel>(
            error,
        ),
        WalletStepModel::Create(request) => {
            &&& added.len() == 2
            &&& added[1] is Call
            &&& added[1]->request == request
            &&& outcome == creation_outcome(added[1]->reply)
        },
    }
}

/// Whether an exchange is the creation of a wallet.
pub open spec fn is_creation(exchange: Exchange) -> bool {
    exchange is Call && exchange->request.method == "createwallet"@
}

/// The test for the creation of a wallet.
pub open spec fn creation_test() -> spec_fn(Exchange) -> bool {
    |exchange: Exchange| is_creation(exchange)
}

/// How many of `added` are creations of a wallet.
pub open spec fn creations_in(added: Seq<Exchange>) -> nat {
    count_of(added, creation_test())
}

/// A call about a wallet.
fn wallet_call(method: &str, wallet_name: &str) -> (request: RpcRequest)
    ensures
        request@ == wallet_request(method@, wallet_name@),
{
    let mut params: Vec<Json> = Vec::new();
    params.push(Json::text(wallet_name));
    proof {
        assert(models(params@) =~= seq![JsonModel::Text(wallet_name@)]);
    }
    RpcRequest { method: method.to_owned(), params, endpoint: Endpoint::Node }
}

/// Reads the node's account of a failed load for what it says of the wallet.
fn state_in_report(report: &Json) -> (state: WalletState)
    ensures
        state == reported_state(report@),
{
    let message = error_message(report);
    let already_loaded = match &message {
        Some(text) => contains(text.as_str(), "already loaded"),
        None => false,
    };
    if already_loaded {
        return WalletState::AlreadyLoadedElsewhere;
    }
    let not_found = match error_code(report) {
        Some(code) => same(code.as_str(), "-18"),
        None => match &message {
            Some(text) => contains(text.as_str(), "failed"),
            None => false,
        },
    };
    if not_found {
        WalletState::AbsentNeedsCreate
    } else {
        WalletState::Unknown
    }
}

/// Reads the node's answer to a load for what it says of the wallet.
pub fn wallet_state(reply: &Result<Json, ClientError>) -> (state: WalletState)
    ensures
        state == wallet_state_of(outcome_model(*reply)),
{
    match reply {
        Ok(_) => WalletState::Loaded,
        Err(error) => match node_error(error) {
            Some(report) => state_in_report(&report),
            None => WalletState::Unknown,
        },
    }
}

/// A load that was sent and waits for the node's answer.
#[derive(Debug, Clone, PartialEq, Eq)]
pub struct WalletLoad {
    wallet_name: String,
}

/// A creation that was sent and waits for the node's answer.
#[derive(Debug, Clone, PartialEq, Eq)]
pub struct WalletCreation {
    wallet_name: String,
}

impl WalletLoad {
    /// The wallet that is being loaded.
    pub closed spec fn wallet_name(&self) -> Seq<char> {
        self.wallet_name@
    }

    /// What follows the node's answer to the load.
    ///
    /// A success, and a failure that says the wallet is loaded already, make
    /// the wallet usable. A failure that says there is no such wallet asks for
    /// its creation. Any other failure is final and comes back unchanged.
    pub fn answered(self, reply: Result<Json, ClientError>) -> (step: WalletStep)
        ensures
            step@ == load_step(self.wallet_name(), outcome_model(reply)),
            step matches WalletStep::Create { request, pending } ==> pending.wallet_name()
                == self.wallet_name(),
    {
        match wallet_state(&reply) {
            WalletState::Loaded => WalletStep::Ready,
            WalletState::AlreadyLoadedElsewhere => WalletStep::Ready,
            WalletState::AbsentNeedsCreate => WalletStep::Create {
                request: wallet_call("createwallet", self.wallet_name.as_str()),
                pending: WalletCreation { wallet_name: self.wallet_name },
            },
            WalletState::Unknown => match reply {
                Err(error) => WalletStep::Failed(error),
                Ok(_) => WalletStep::Ready,
            },
        }
    }
}

impl WalletCreation {
    /// The wallet that is being created.
    pub closed spec fn wallet_name(&self) -> Seq<char> {
        self.wallet_name@
    }

    /// How it ends with the node's answer to the creation: a failure is final
    /// and comes back unchanged.
    pub fn answered(self, reply: Result<Json, ClientError>) -> (outcome: Result<(), ClientError>)
        ensures
            outcome_model(outcome) == creation_outcome(outcome_model(reply)),
    {
        match reply {
            Ok(_) => Ok(()),
            Err(error) => Err(error),
        }
    }
}

/// Begins to make the wallet `wallet_name` usable: the load to send, and what
/// waits for its answer.
pub fn load_wallet_request(wallet_name: &str) -> (begun: (RpcRequest, WalletLoad))
    ensures
        begun.0@ == wallet_request("loadwallet"@, wallet_name@),
        begun.1.wallet_name() == wallet_name@,
{
    (wallet_call("loadwallet", wallet_name), WalletLoad { wallet_name: wallet_name.to_owned() })
}

impl RealRpcClient {
    /// Begins to make the wallet `wallet_name` usable: the load to send, and
    /// what waits for its answer.
    pub fn create_or_load_wallet(&self, wallet_name: &str) -> (begun: (RpcRequest, WalletLoad))
        ensures
            begun.0@ == wallet_request("loadwallet"@, wallet_name@),
            begun.1.wallet_name() == wallet_name@,
    {
        load_wallet_request(wallet_name)
    }
}

impl<C: RpcClient> SyscoinClient<C> {
    /// Makes the wallet `wallet_name` usable: loads it, and creates it where
    /// the node says that there is none.
    ///
    /// A wallet that is loaded already counts as loaded. Any other failure of
    /// the load, and any failure of the creation, comes back unchanged.
    pub fn create_or_load_wallet(&mut self, wallet_name: &str) -> (outcome: Result<
        (),
        ClientError,
    >)
        ensures
            final(self).mirror() == old(self).mirror(),
            old(self).history().is_prefix_of(final(self).history()),
            is_wallet_run(
                wallet_name@,
                added_to(old(self).history(), final(self).history()),
                outcome_model(outcome),
            ),
    {
        let (load, waiting) = load_wallet_request(wallet_name);
        let reply = self.send(&load);
        match waiting.answered(reply) {
            WalletStep::Ready => Ok(()),
            WalletStep::Failed(error) => Err(error),
            WalletStep::Create { request, pending } => {
                let reply = self.send(&request);
                pending.answered(reply)
            },
        }
    }
}

/// A wallet that the node reports as loaded already is usable at once: the
/// load is the only call, and no creation is sent.
pub proof fn lemma_loaded_wallet_is_not_created(
    wallet_name: Seq<char>,
    added: Seq<Exchange>,
    outcome: Result<(), ErrorModel>,
)
    requires
        is_wallet_run(wallet_name, added, outcome),
        wallet_state_of(added[0]->reply) == WalletState::AlreadyLoadedElsewhere,
    ensures
        outcome == Ok::<(), ErrorModel>(()),
        added.len() == 1,
        creations_in(added) == 0,
{
    lemma_load_is_no_creation(wallet_name);
    lemma_few_counted(added, creation_test());
}

/// A wallet that the node reports as not found is created with exactly one
/// call, and is usable where that call succeeds.
pub proof fn lemma_missing_wallet_is_created_once(
    wallet_name: Seq<char>,
    added: Seq<Exchange>,
    outcome: Result<(), ErrorModel>,
)
    requires
        is_wallet_run(wallet_name, added, outcome),
        wallet_state_of(added[0]->reply) == WalletState::AbsentNeedsCreate,
    ensures
        added.len() == 2,
        added[1] is Call,
        added[1]->request == wallet_request("createwallet"@, wallet_name),
        creations_in(added) == 1,
        added[1]->reply is Ok ==> outcome == Ok::<(), ErrorModel>(()),
        added[1]->reply is Err ==> outcome == Err::<(), ErrorModel>(added[1]->reply->Err_0),
{
    lemma_load_is_no_creation(wallet_name);
    lemma_few_counted(added, creation_test());
}

/// In any run, a creation is sent only where the load's answer says that the
/// wallet is missing.
pub proof fn lemma_creation_only_for_missing_wallet(
    wallet_name: Seq<char>,
    added: Seq<Exchange>,
    outcome: Result<(), ErrorModel>,
)
    requires
        is_wallet_run(wallet_name, added, outcome),
    ensures
        creations_in(added) <= 1,
        creations_in(added) == 1 <==> wallet_state_of(added[0]->reply)
            == WalletState::AbsentNeedsCreate,
{
    lemma_load_is_no_creation(wallet_name);
    lemma_few_counted(added, creation_test());
}

/// A load is no creation.
proof fn lemma_load_is_no_creation(wallet_name: Seq<char>)
    ensures
        wallet_request("loadwallet"@, wallet_name).method != "createwallet"@,
{
    reveal_strlit("loadwallet");
    reveal_strlit("createwallet");
    assert("loadwallet"@[0] != "createwallet"@[0]);
}

/// A node that says the wallet is loaded already is believed, whatever else
/// its account holds: the load counts as done.
pub proof fn lemma_already_loaded_report_is_read_first(wallet_name: Seq<char>, report: JsonModel)
    requires
        says_already_loaded(report),
    ensures
        wallet_state_of(Err(ErrorModel::Application { error: report }))
            == WalletState::AlreadyLoadedElsewhere,
        load_step(wallet_name, Err(ErrorModel::Application { error: report }))
            == WalletStepModel::Ready,
{
}

/// A failed load that carries no account of the node is final and comes back
/// unchanged, whatever its words: so every failure to reach the node, every
/// body that is no envelope, and every envelope without result and error.
pub proof fn lemma_failure_without_report_is_fatal(wallet_name: Seq<char>, error: ErrorModel)
    requires
        node_error_of(error) is None,
    ensures
        wallet_state_of(Err(error)) == WalletState::Unknown,
        load_step(wallet_name, Err(error)) == WalletStepModel::Failed(error),
        error is Transport || error is Malformed || error is MissingResult ==> node_error_of(error)
            is None,
{
}

/// A node's account that names another code than that of a missing wallet,
/// and does not say that the wallet is loaded, makes the failure final,
/// whatever its message holds.
pub proof fn lemma_other_code_is_fatal(wallet_name: Seq<char>, error: ErrorModel)
    requires
        node_error_of(error) matches Some(report) && !says_already_loaded(report) && error_code_of(
            report,
        ) is Some && error_code_of(report) != Some("-18"@),
    ensures
        load_step(wallet_name, Err(error)) == WalletStepModel::Failed(error),
{
}

} // verus!
