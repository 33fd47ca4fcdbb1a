//! The three operations of the escrow contract: instantiate, execute
//! (transfer) and query, each a pure function of the storage slot, the call
//! environment and the call's inputs.

use vstd::prelude::*;

use crate::error::{ContractError, StdError};
use crate::funds::{funds_match, spec_funds_match, FundsPolicy};
use crate::state::{
    clone_coins, clone_state, same_state, spec_expired, Coin, Env, MessageInfo, State, Store,
};

verus! {

/// The creation request: the owner to be paid on settlement, the capital a
/// settling caller must attach, and the optional deadlines. The owner
/// address arrives already validated by the host.
pub struct InstantiateMsg {
    pub owner: String,
    pub capital: Vec<Coin>,
    pub end_height: Option<u64>,
    pub end_time: Option<u64>,
}

/// The one action a caller can request of a live instance.
pub enum ExecuteMsg {
    Transfer,
}

/// The one read-only request.
pub enum QueryMsg {
    Config,
}

/// A directive handed back to the host, asking it to move funds out of the
/// contract's balance.
#[derive(Debug, PartialEq, Eq)]
pub enum BankMsg {
    Send { to_address: String, amount: Vec<Coin> },
}

/// A descriptive key-value pair attached to a successful invocation's
/// result.
#[derive(Debug, PartialEq, Eq)]
pub struct Attribute {
    pub key: String,
    pub value: String,
}

/// What a successful invocation hands back to the host: outbound directives
/// and descriptive attributes.
#[derive(Debug)]
pub struct Response {
    pub messages: Vec<BankMsg>,
    pub attributes: Vec<Attribute>,
}

impl Response {
    /// An empty response: no directives, no attributes.
    pub fn new() -> (r: Response)
        ensures
            r.messages@.len() == 0,
            r.attributes@.len() == 0,
    {
        Response { messages: Vec::new(), attributes: Vec::new() }
    }

    /// The same response with one more outbound directive.
    pub fn add_message(self, msg: BankMsg) -> (r: Response)
        ensures
            r.messages@ == self.messages@.push(msg),
            r.attributes@ == self.attributes@,
    {
        let mut messages = self.messages;
        messages.push(msg);
        Response { messages, attributes: self.attributes }
    }

    /// The same response with one more descriptive attribute.
    pub fn add_attribute(self, key: &str, value: &str) -> (r: Response)
        ensures
            r.messages@ == self.messages@,
            r.attributes@.len() == self.attributes@.len() + 1,
            forall|i: int|
                0 <= i < self.attributes@.len() ==> r.attributes@[i] == self.attributes@[i],
            r.attributes@.last().key@ == key@,
            r.attributes@.last().value@ == value@,
    {
        let mut attributes = self.attributes;
        attributes.push(Attribute { key: key.to_owned(), value: value.to_owned() });
        Response { messages: self.messages, attributes }
    }
}

/// The explicit configuration choices that collapse the contract's variants
/// into one implementation: an optional caller check and the fund-equality
/// policy.
pub struct Policy {
    /// When set, only this caller may settle; any other caller is rejected
    /// as unauthorized. When unset, caller identity is not checked.
    pub authorized: Option<String>,
    /// Which equality the attached funds must bear to the stored capital.
    pub funds_policy: FundsPolicy,
}

impl Default for Policy {
    /// The canonical choices: no caller check, and exact (order-free,
    /// denomination-aware) fund matching.
    fn default() -> (p: Policy)
        ensures
            p.authorized is None,
            p.funds_policy is Exact,
    {
        Policy { authorized: None, funds_policy: FundsPolicy::Exact }
    }
}

/// Whether the policy admits this caller.
pub open spec fn spec_auth_ok(policy: Policy, sender: String) -> bool {
    match policy.authorized {
        Some(a) => a@ == sender@,
        None => true,
    }
}

/// The record a creation request persists: the request's fields, with no
/// sender yet.
pub open spec fn init_state(msg: InstantiateMsg) -> State {
    State {
        owner: msg.owner,
        sender: None,
        capital: msg.capital,
        end_height: msg.end_height,
        end_time: msg.end_time,
    }
}

/// The record after a settlement by `sender`: only the sender field
/// changes; owner, capital and deadlines are untouched.
pub open spec fn settled(state: State, sender: String) -> State {
    State { sender: Some(sender), ..state }
}

/// The response a settlement emits: exactly one directive sending the
/// capital to the owner, tagged with the transfer action attribute.
pub open spec fn is_transfer_response(resp: Response, owner: Seq<char>, capital: Seq<Coin>) -> bool {
    &&& resp.messages@.len() == 1
    &&& (resp.messages@[0] matches BankMsg::Send { to_address, amount } && to_address@ == owner
        && amount@ == capital)
    &&& resp.attributes@.len() == 1
    &&& resp.attributes@[0].key@ == "action"@
    &&& resp.attributes@[0].value@ == "transfer"@
}

/// Creates the escrow: persists the record built from the request unless
/// the creation-time environment already satisfies the expiry predicate, in
/// which case nothing is persisted and the configured bounds come back in
/// the error. Emits no directives. The caller's identity and funds play no
/// part.
pub fn instantiate(
    store: &mut Store,
    env: &Env,
    _info: &MessageInfo,
    msg: InstantiateMsg,
) -> (r: Result<Response, ContractError>)
    ensures
        r is Ok <==> !spec_expired(init_state(msg), *env),
        spec_expired(init_state(msg), *env) ==> r == Err::<Response, ContractError>(
            ContractError::Expired { end_height: msg.end_height, end_time: msg.end_time },
        ) && *final(store) == *old(store),
        r matches Ok(resp) ==> resp.messages@.len() == 0 && resp.attributes@.len() == 0
            && final(store).state == Some(init_state(msg)),
{
    let state = State {
        owner: msg.owner,
        sender: None,
        capital: msg.capital,
        end_height: msg.end_height,
        end_time: msg.end_time,
    };
    if state.is_expired(env) {
        return Err(ContractError::Expired {
            end_height: state.end_height,
            end_time: state.end_time,
        });
    }
    store.state = Some(state);
    Ok(Response::new())
}

/// Settles the escrow under an explicit policy, against a record the caller
/// already loaded.
///
/// In order: a record expired in the live environment fails with the
/// configured bounds; a caller the policy does not admit fails as
/// unauthorized; attached funds that do not equal the capital under the
/// policy fail with the required and sent amounts. Each failure leaves the
/// store untouched. Otherwise the given record is persisted with the caller
/// recorded as sender, and the response carries exactly one directive
/// sending the capital to the owner.
pub fn handle_transfer(
    store: &mut Store,
    env: &Env,
    state: State,
    info: MessageInfo,
    policy: &Policy,
) -> (r: Result<Response, ContractError>)
    ensures
        r is Ok <==> (!spec_expired(state, *env) && spec_auth_ok(*policy, info.sender)
            && spec_funds_match(policy.funds_policy, info.funds@, state.capital@)),
        spec_expired(state, *env) ==> r == Err::<Response, ContractError>(
            ContractError::Expired { end_height: state.end_height, end_time: state.end_time },
        ),
        !spec_expired(state, *env) && !spec_auth_ok(*policy, info.sender) ==> r == Err::<
            Response,
            ContractError,
        >(ContractError::Unauthorized),
        !spec_expired(state, *env) && spec_auth_ok(*policy, info.sender) && !spec_funds_match(
            policy.funds_policy,
            info.funds@,
            state.capital@,
        ) ==> r == Err::<Response, ContractError>(
            ContractError::InsufficientFunds { required: state.capital, sent: info.funds },
        ),
        r is Err ==> *final(store) == *old(store),
        r matches Ok(resp) ==> is_transfer_response(resp, state.owner@, state.capital@)
            && final(store).state == Some(settled(state, info.sender)),
{
    if state.is_expired(env) {
        return Err(ContractError::Expired {
            end_height: state.end_height,
            end_time: state.end_time,
        });
    }
    match &policy.authorized {
        Some(a) => {
            if !(info.sender == *a) {
                return Err(ContractError::Unauthorized);
            }
        },
        None => {},
    }
    if !funds_match(&policy.funds_policy, &info.funds, &state.capital) {
        return Err(ContractError::InsufficientFunds { required: state.capital, sent: info.funds });
    }
    let resp = Response::new().add_message(
        BankMsg::Send { to_address: state.owner.clone(), amount: clone_coins(&state.capital) },
    ).add_attribute("action", "transfer");
    store.state = Some(State { sender: Some(info.sender), ..state });
    Ok(resp)
}

/// The host entry point for actions: loads the record and dispatches under
/// the canonical policy (no caller check, exact fund matching). Fails with
/// a wrapped not-found error, touching nothing, when no record was ever
/// persisted.
pub fn execute(
    store: &mut Store,
    env: &Env,
    info: MessageInfo,
    msg: ExecuteMsg,
) -> (r: Result<Response, ContractError>)
    ensures
        old(store).state is None ==> r == Err::<Response, ContractError>(
            ContractError::Std(StdError::NotFound),
        ) && *final(store) == *old(store),
        old(store).state matches Some(st) ==> {
            &&& (r is Ok <==> !spec_expired(st, *env) && spec_funds_match(
                FundsPolicy::Exact,
                info.funds@,
                st.capital@,
            ))
            &&& spec_expired(st, *env) ==> r == Err::<Response, ContractError>(
                ContractError::Expired { end_height: st.end_height, end_time: st.end_time },
            ) && *final(store) == *old(store)
            &&& !spec_expired(st, *env) && !spec_funds_match(
                FundsPolicy::Exact,
                info.funds@,
                st.capital@,
            ) ==> (r matches Err(e) && e matches ContractError::InsufficientFunds {
                required,
                sent,
            } && required@ == st.capital@ && sent == info.funds) && *final(store) == *old(store)
            &&& r matches Ok(resp) ==> is_transfer_response(resp, st.owner@, st.capital@) && (
            final(store).state matches Some(ns) && same_state(ns, settled(st, info.sender)))
        },
{
    let state = match &store.state {
        Some(s) => clone_state(s),
        None => {
            return Err(ContractError::Std(StdError::NotFound));
        },
    };
    match msg {
        ExecuteMsg::Transfer => handle_transfer(store, env, state, info, &Policy::default()),
    }
}

/// The read-only entry point: hands back a copy of the stored record, or
/// the host's not-found error when no record was ever persisted. No side
/// effects.
pub fn query(store: &Store, msg: QueryMsg) -> (r: Result<State, StdError>)
    ensures
        r is Ok <==> store.state is Some,
        store.state matches Some(st) ==> (r matches Ok(out) && same_state(out, st)),
        store.state is None ==> r == Err::<State, StdError>(StdError::NotFound),
{
    match msg {
        QueryMsg::Config => match &store.state {
            Some(s) => Ok(clone_state(s)),
            None => Err(StdError::NotFound),
        },
    }
}

/// A copy of the stored record, for a caller that knows the instance was
/// instantiated.
pub fn query_config(store: &Store) -> (r: State)
    requires
        store.state is Some,
    ensures
        same_state(r, store.state->0),
{
    match &store.state {
        Some(s) => clone_state(s),
        None => vstd::pervasive::unreached(),
    }
}

/// A settlement rewrites `sender` to the settling caller and preserves
/// every field set at instantiation: owner, capital and both deadlines.
/// Together with the query contract, what a query returns after any chain
/// of settlements is the instantiated record with only `sender` updated.
pub proof fn lemma_settlement_preserves_config(state: State, caller: String)
    ensures
        settled(state, caller).sender == Some(caller),
        settled(state, caller).owner == state.owner,
        settled(state, caller).capital == state.capital,
        settled(state, caller).end_height == state.end_height,
        settled(state, caller).end_time == state.end_time,
{
}

/// A settlement never changes when the contract expires: expiry depends
/// only on the deadlines fixed at instantiation and on the live
/// environment, so a transfer that succeeded earlier still fails once
/// either bound is passed.
pub proof fn lemma_settlement_preserves_expiry(state: State, caller: String, env: Env)
    ensures
        spec_expired(settled(state, caller), env) == spec_expired(state, env),
{
}

} // verus!
