//! The address that funds are sent to, and the wait for them.
//!
//! The node's wallet binds addresses to labels. The client keeps nothing:
//! every time, it asks the node for the address under the label, has one made
//! where there is none, and then asks for the balance until there is one.

use crate::client::{RealRpcClient, SyscoinClient};
use crate::error::{ClientError, ErrorModel};
use crate::json::{first_key_of, has_key, lemma_first_key_is_a_key, models, number_of, text_of};
use crate::json::{Json, JsonModel};
use crate::rpc::{
    added_to, error_code, error_code_of, is_call_of, node_error, node_error_of, outcome_model,
    Endpoint, Exchange, RequestModel, RpcClient, RpcRequest,
};
use crate::text::same;
use vstd::prelude::*;

verus! {

/// The seconds to let pass between two looks at the balance.
pub const POLL_INTERVAL_SECS: u64 = 10;

/// The parameters of a balance query: the account where one is named, and
/// after it the watch-only flag where that is given too.
pub open spec fn balance_params(account: Option<&str>, include_watchonly: Option<bool>) -> Seq<
    JsonModel,
> {
    match account {
        None => seq![],
        Some(name) => match include_watchonly {
            None => seq![JsonModel::Text(name@)],
            Some(flag) => seq![JsonModel::Text(name@), JsonModel::Bool(flag)],
        },
    }
}

/// The query for the wallet's balance.
pub open spec fn balance_query(account: Option<&str>, include_watchonly: Option<bool>)
    -> RequestModel {
    RequestModel {
        method: "getbalance"@,
        params: balance_params(account, include_watchonly),
        endpoint: Endpoint::Wallet,
    }
}

/// A call to the wallet about `label`, which is its one parameter.
pub open spec fn label_request(method: Seq<char>, label: Seq<char>) -> RequestModel {
    RequestModel { method, params: seq![JsonModel::Text(label)], endpoint: Endpoint::Wallet }
}

/// The balance in the node's answer: the number, as the text that stands for
/// it. Anything but a number is not a balance.
pub open spec fn reported_balance(reply: Result<JsonModel, ErrorModel>) -> Result<
    Seq<char>,
    ErrorModel,
> {
    match reply {
        Err(error) => Err(error),
        Ok(result) => match number_of(result) {
            Some(number) => Ok(number),
            None => Err(ErrorModel::Malformed { detail: "Invalid balance format"@ }),
        },
    }
}

/// The new address in the node's answer, which has to be a string.
pub open spec fn created_address(reply: Result<JsonModel, ErrorModel>) -> Result<
    Seq<char>,
    ErrorModel,
> {
    match reply {
        Err(error) => Err(error),
        Ok(result) => match text_of(result) {
            Some(address) => Ok(address),
            None => Err(ErrorModel::Malformed { detail: "getnewaddress returned non-string"@ }),
        },
    }
}

/// Whether a failure is the node's way of saying that the label has no
/// address: the node's account of the failure names the code for that,
/// `-11`. A failure without such an account never is, whatever its words.
pub open spec fn says_no_address(error: ErrorModel) -> bool {
    match node_error_of(error) {
        Some(report) => error_code_of(report) == Some("-11"@),
        None => false,
    }
}

/// The address under a label in the node's answer: the first key of the
/// object it gives, and none where it gives no key or says that the label has
/// no address. Any other failure stays one.
pub open spec fn found_address(reply: Result<JsonModel, ErrorModel>) -> Result<
    Option<Seq<char>>,
    ErrorModel,
> {
    match reply {
        Err(error) => if says_no_address(error) {
            Ok(None)
        } else {
            Err(error)
        },
        Ok(result) => Ok(first_key_of(result)),
    }
}

/// What the outcome of a lookup holds.
pub open spec fn lookup_model(outcome: Result<Option<String>, ClientError>) -> Result<
    Option<Seq<char>>,
    ErrorModel,
> {
    match outcome {
        Ok(Some(address)) => Ok(Some(address@)),
        Ok(None) => Ok(None),
        Err(error) => Err(error@),
    }
}

/// Whether a character ends the significand of a number.
pub open spec fn is_exponent_mark(c: char) -> bool {
    c == 'e' || c == 'E'
}

/// Whether a character is one of the digits `1` to `9`.
pub open spec fn is_nonzero_digit(c: char) -> bool {
    49 <= c as int <= 57
}

/// Whether one of the digits `1` to `9` stands in `number` before any exponent.
pub open spec fn has_nonzero_significand(number: Seq<char>) -> bool
    decreases number.len(),
{
    if number.len() == 0 {
        false
    } else if is_exponent_mark(number[0]) {
        false
    } else if is_nonzero_digit(number[0]) {
        true
    } else {
        has_nonzero_significand(number.drop_first())
    }
}

/// Whether the text of a number stands for more than zero: it has no minus
/// sign, and its significand is not made of zeros alone.
pub open spec fn denotes_positive(number: Seq<char>) -> bool {
    number.len() > 0 && number[0] != '-' && has_nonzero_significand(number)
}

/// The query for the wallet's balance.
pub fn balance_request(account: Option<&str>, include_watchonly: Option<bool>) -> (request:
    RpcRequest)
    ensures
        request@ == balance_query(account, include_watchonly),
{
    let mut params: Vec<Json> = Vec::new();
    if let Some(name) = account {
        params.push(Json::text(name));
        if let Some(flag) = include_watchonly {
            params.push(Json::boolean(flag));
        }
    }
    proof {
        assert(models(params@) =~= balance_params(account, include_watchonly));
    }
    RpcRequest { method: String::from_str("getbalance"), params, endpoint: Endpoint::Wallet }
}

/// The balance that the node reported, as the text of the number.
pub fn balance_reply(reply: Result<Json, ClientError>) -> (balance: Result<String, ClientError>)
    ensures
        outcome_model(balance) == reported_balance(outcome_model(reply)),
{
    match reply {
        Err(error) => Err(error),
        Ok(result) => match result.number_text() {
            Some(number) => Ok(number),
            None => Err(ClientError::Malformed { detail: String::from_str("Invalid balance format") }),
        },
    }
}

/// Whether a balance, given as the text of a number, exceeds zero.
pub fn exceeds_zero(balance: &str) -> (positive: bool)
    ensures
        positive == denotes_positive(balance@),
{
    let length = balance.unicode_len();
    if length == 0 || balance.get_char(0) == '-' {
        return false;
    }
    let mut i: usize = 0;
    proof {
        assert(balance@.skip(0) =~= balance@);
    }
    while i < length
        invariant
            i <= length,
            length == balance@.len(),
            balance@.len() > 0,
            balance@[0] != '-',
            has_nonzero_significand(balance@.skip(i as int)) == has_nonzero_significand(balance@),
        decreases length - i,
    {
        let c = balance.get_char(i);
        proof {
            let rest = balance@.skip(i as int);
            assert(rest[0] == c);
            assert(rest.drop_first() =~= balance@.skip(i + 1));
        }
        if c == 'e' || c == 'E' {
            return false;
        }
        if '1' <= c && c <= '9' {
            return true;
        }
        i += 1;
    }
    false
}

/// A call to the wallet about a label.
fn label_call(method: &str, label: &str) -> (request: RpcRequest)
    ensures
        request@ == label_request(method@, label@),
{
    let mut params: Vec<Json> = Vec::new();
    params.push(Json::text(label));
    proof {
        assert(models(params@) =~= seq![JsonModel::Text(label@)]);
    }
    RpcRequest { method: method.to_owned(), params, endpoint: Endpoint::Wallet }
}

/// The call that has the wallet make a new address under `address_label`.
pub fn new_address_request(address_label: &str) -> (request: RpcRequest)
    ensures
        request@ == label_request("getnewaddress"@, address_label@),
{
    label_call("getnewaddress", address_label)
}

/// The address that the wallet made.
pub fn new_address_reply(reply: Result<Json, ClientError>) -> (address: Result<String, ClientError>)
    ensures
        outcome_model(address) == created_address(outcome_model(reply)),
{
    match reply {
        Err(error) => Err(error),
        Ok(result) => match result.as_str() {
            Some(address) => Ok(address.to_owned()),
            None => Err(
                ClientError::Malformed {
                    detail: String::from_str("getnewaddress returned non-string"),
                },
            ),
        },
    }
}

/// The call that asks the wallet for the addresses under `address_label`.
pub fn address_lookup_request(address_label: &str) -> (request: RpcRequest)
    ensures
        request@ == label_request("getaddressesbylabel"@, address_label@),
{
    label_call("getaddressesbylabel", address_label)
}

/// Whether a failure is the node's way of saying that the label has no address.
pub fn no_address(error: &ClientError) -> (none: bool)
    ensures
        none == says_no_address(error@),
{
    match node_error(error) {
        Some(report) => match error_code(&report) {
            Some(code) => same(code.as_str(), "-11"),
            None => false,
        },
        None => false,
    }
}

/// The address that the wallet has under the label, if any.
///
/// The node answers a label without addresses with an error of its own, which
/// is read here as "none". Every other failure comes back unchanged. Where
/// the call succeeded, there is no address only where the result is no
/// object, or an object without a key.
pub fn address_lookup_reply(reply: Result<Json, ClientError>) -> (found: Result<
    Option<String>,
    ClientError,
>)
    ensures
        lookup_model(found) == found_address(outcome_model(reply)),
{
    match reply {
        Err(error) => if no_address(&error) {
            Ok(None)
        } else {
            Err(error)
        },
        Ok(result) => Ok(result.first_key()),
    }
}

/// What follows the node's answer to a lookup.
pub enum LookupStep {
    /// The wallet has an address under the label.
    Found(String),
    /// It has none: send `request` for a new one, and hand the answer to `pending`.
    Create { request: RpcRequest, pending: AddressCreation },
    /// The lookup failed.
    Failed(ClientError),
}

/// What a [`LookupStep`] holds.
pub enum LookupStepModel {
    Found(Seq<char>),
    Create(RequestModel),
    Failed(ErrorModel),
}

impl View for LookupStep {
    type V = LookupStepModel;

    open spec fn view(&self) -> LookupStepModel {
        match *self {
            LookupStep::Found(address) => LookupStepModel::Found(address@),
            LookupStep::Create { request, pending } => LookupStepModel::Create(request@),
            LookupStep::Failed(error) => LookupStepModel::Failed(error@),
        }
    }
}

/// What follows the answer to the lookup of `label`.
pub open spec fn lookup_step(label: Seq<char>, reply: Result<JsonModel, ErrorModel>)
    -> LookupStepModel {
    match found_address(reply) {
        Err(error) => LookupStepModel::Failed(error),
        Ok(Some(address)) => LookupStepModel::Found(address),
        Ok(None) => LookupStepModel::Create(label_request("getnewaddress"@, label)),
    }
}

/// A lookup that was sent and waits for the node's answer.
#[derive(Debug, Clone, PartialEq, Eq)]
pub struct AddressLookup {
    label: String,
}

/// A call for a new address that was sent and waits for the node's answer.
#[derive(Debug, Clone, PartialEq, Eq)]
pub struct AddressCreation {
    label: String,
}

impl AddressLookup {
    /// The label that is looked up.
    pub closed spec fn label(&self) -> Seq<char> {
        self.label@
    }

    /// Begins to find the address under `address_label`: the lookup to send,
    /// and what waits for its answer.
    pub fn begin(address_label: &str) -> (begun: (RpcRequest, AddressLookup))
        ensures
            begun.0@ == label_request("getaddressesbylabel"@, address_label@),
            begun.1.label() == address_label@,
    {
        (
            address_lookup_request(address_label),
            AddressLookup { label: address_label.to_owned() },
        )
    }

    /// What follows the node's answer to the lookup: the address that was
    /// found, or the call for a new one where there is none.
    pub fn answered(self, reply: Result<Json, ClientError>) -> (step: LookupStep)
        ensures
            step@ == lookup_step(self.label(), outcome_model(reply)),
            step matches LookupStep::Create { request, pending } ==> pending.label()
                == self.label(),
    {
        match address_lookup_reply(reply) {
            Err(error) => LookupStep::Failed(error),
            Ok(Some(address)) => LookupStep::Found(address),
            Ok(None) => LookupStep::Create {
                request: new_address_request(self.label.as_str()),
                pending: AddressCreation { label: self.label },
            },
        }
    }
}

impl AddressCreation {
    /// The label that gets a new address.
    pub closed spec fn label(&self) -> Seq<char> {
        self.label@
    }

    /// The address that the wallet made, or the failure of the call.
    pub fn answered(self, reply: Result<Json, ClientError>) -> (address: Result<
        String,
        ClientError,
    >)
        ensures
            outcome_model(address) == created_address(outcome_model(reply)),
    {
        new_address_reply(reply)
    }
}

/// What to do about funds, once the address is known and the balance was asked.
pub enum PollStep {
    /// The balance exceeds zero: the address is funded.
    Funded(String),
    /// Nothing there yet: let `seconds` pass, send `request`, and hand the
    /// answer to `pending`.
    Wait { seconds: u64, request: RpcRequest, pending: BalancePoll },
    /// The balance could not be read.
    Failed(ClientError),
}

/// What a [`PollStep`] holds.
pub enum PollStepModel {
    Funded(Seq<char>),
    Wait { seconds: u64, request: RequestModel, address: Seq<char> },
    Failed(ErrorModel),
}

impl View for PollStep {
    type V = PollStepModel;

    open spec fn view(&self) -> PollStepModel {
        match *self {
            PollStep::Funded(address) => PollStepModel::Funded(address@),
            PollStep::Wait { seconds, request, pending } => PollStepModel::Wait {
                seconds,
                request: request@,
                address: pending.address(),
            },
            PollStep::Failed(error) => PollStepModel::Failed(error@),
        }
    }
}

/// What follows the node's answer to a balance query, for the funding `address`.
pub open spec fn poll_step(address: Seq<char>, reply: Result<JsonModel, ErrorModel>)
    -> PollStepModel {
    match reported_balance(reply) {
        Err(error) => PollStepModel::Failed(error),
        Ok(balance) => if denotes_positive(balance) {
            PollStepModel::Funded(address)
        } else {
            PollStepModel::Wait {
                seconds: POLL_INTERVAL_SECS,
                request: balance_query(None, None),
                address,
            }
        },
    }
}

/// A balance query that was sent for a funding address and waits for the
/// node's answer.
#[derive(Debug, Clone, PartialEq, Eq)]
pub struct BalancePoll {
    address: String,
}

impl BalancePoll {
    /// The address that funds are awaited at.
    pub closed spec fn address(&self) -> Seq<char> {
        self.address@
    }

    /// Begins to wait for funds at `address`: the first balance query to
    /// send, at once, and what waits for its answer.
    pub fn begin(address: String) -> (begun: (RpcRequest, BalancePoll))
        ensures
            begun.0@ == balance_query(None, None),
            begun.1.address() == address@,
    {
        (balance_request(None, None), BalancePoll { address })
    }

    /// What follows the node's answer to the balance query.
    ///
    /// A balance above zero ends the wait with the address. Any other balance
    /// asks for the same query again after the interval; how often, nothing
    /// here limits. A failure ends the wait and comes back unchanged.
    pub fn answered(self, reply: Result<Json, ClientError>) -> (step: PollStep)
        ensures
            step@ == poll_step(self.address(), outcome_model(reply)),
    {
        match balance_reply(reply) {
            Err(error) => PollStep::Failed(error),
            Ok(balance) => if exceeds_zero(balance.as_str()) {
                PollStep::Funded(self.address)
            } else {
                PollStep::Wait {
                    seconds: POLL_INTERVAL_SECS,
                    request: balance_request(None, None),
                    pending: self,
                }
            },
        }
    }
}

/// Whether `added` and `outcome` are what finding or making the address under
/// `label` comes to: the lookup; after it the call for a new address, where
/// the lookup found none, and nothing else.
pub open spec fn is_address_run(
    label: Seq<char>,
    added: Seq<Exchange>,
    outcome: Result<Seq<char>, ErrorModel>,
) -> bool {
    &&& added.len() >= 1
    &&& added[0] is Call
    &&& added[0]->request == label_request("getaddressesbylabel"@, label)
    &&& match found_address(added[0]->reply) {
        Err(error) => added.len() == 1 && outcome == Err::<Seq<char>, ErrorModel>(error),
        Ok(Some(address)) => added.len() == 1 && outcome == Ok::<Seq<char>, ErrorModel>(address),
        Ok(None) => {
            &&& added.len() == 2
            &&& added[1] is Call
            &&& added[1]->request == label_request("getnewaddress"@, label)
            &&& outcome == created_address(added[1]->reply)
        },
    }
}

impl RealRpcClient {
    /// The query for the wallet's balance: for `account` where one is named,
    /// with the watch-only flag after it where that is given too.
    pub fn get_balance(&self, account: Option<&str>, include_watchonly: Option<bool>) -> (request:
        RpcRequest)
        ensures
            request@ == balance_query(account, include_watchonly),
    {
        balance_request(account, include_watchonly)
    }
}

impl<C: RpcClient> SyscoinClient<C> {
    /// Asks the node for the wallet's balance: one call, and the number in
    /// its answer as text.
    pub fn get_balance(&mut self) -> (balance: Result<String, ClientError>)
        ensures
            final(self).mirror() == old(self).mirror(),
            old(self).history().is_prefix_of(final(self).history()),
            ({
                let added = added_to(old(self).history(), final(self).history());
                &&& is_call_of(added, balance_query(None, None))
                &&& outcome_model(balance) == reported_balance(added[0]->reply)
            }),
    {
        let request = balance_request(None, None);
        let reply = self.send(&request);
        balance_reply(reply)
    }

    /// Has the wallet make a new address under `address_label`: one call.
    pub fn get_new_address(&mut self, address_label: &str) -> (address: Result<String, ClientError>)
        ensures
            final(self).mirror() == old(self).mirror(),
            old(self).history().is_prefix_of(final(self).history()),
            ({
                let added = added_to(old(self).history(), final(self).history());
                &&& is_call_of(added, label_request("getnewaddress"@, address_label@))
                &&& outcome_model(address) == created_address(added[0]->reply)
            }),
    {
        let request = new_address_request(address_label);
        let reply = self.send(&request);
        new_address_reply(reply)
    }

    /// Asks the wallet for the address under `address_label`: one call, and
    /// the first address in its answer, if there is any.
    pub fn fetch_address_by_label(&mut self, address_label: &str) -> (found: Result<
        Option<String>,
        ClientError,
    >)
        ensures
            final(self).mirror() == old(self).mirror(),
            old(self).history().is_prefix_of(final(self).history()),
            ({
                let added = added_to(old(self).history(), final(self).history());
                &&& is_call_of(added, label_request("getaddressesbylabel"@, address_label@))
                &&& lookup_model(found) == found_address(added[0]->reply)
            }),
    {
        let request = address_lookup_request(address_label);
        let reply = self.send(&request);
        address_lookup_reply(reply)
    }

    /// The address under `address_label`: the one that the wallet has, or a
    /// new one where it has none.
    pub fn ensure_address_by_label(&mut self, address_label: &str) -> (address: Result<
        String,
        ClientError,
    >)
        ensures
            final(self).mirror() == old(self).mirror(),
            old(self).history().is_prefix_of(final(self).history()),
            is_address_run(
                address_label@,
                added_to(old(self).history(), final(self).history()),
                outcome_model(address),
            ),
    {
        let (lookup, waiting) = AddressLookup::begin(address_label);
        let reply = self.send(&lookup);
        match waiting.answered(reply) {
            LookupStep::Failed(error) => Err(error),
            LookupStep::Found(address) => Ok(address),
            LookupStep::Create { request, pending } => {
                let reply = self.send(&request);
                pending.answered(reply)
            },
        }
    }
}

/// A failed lookup stays a failure, unchanged, unless the node's own account
/// of it names the code for a label without addresses: so every failure that
/// carries no such account, whatever its words.
pub proof fn lemma_other_lookup_failure_stays(error: ErrorModel)
    requires
        !says_no_address(error),
    ensures
        found_address(Err(error)) == Err::<Option<Seq<char>>, ErrorModel>(error),
        node_error_of(error) is None ==> !says_no_address(error),
{
}

/// A lookup that succeeded gives a key of the object that the node sent, and
/// none only where the node sent no object or an object without a key.
pub proof fn lemma_lookup_reads_the_result(result: JsonModel)
    ensures
        found_address(Ok(result)) matches Ok(found) && (found matches Some(address)
            ==> result matches JsonModel::Object(members) && members.contains_key(address)) && (
        found is None <==> !has_key(result)),
{
    lemma_first_key_is_a_key(result);
}

} // verus!
