//! The persisted escrow record, the call environment, and the expiry
//! predicate.

use vstd::prelude::*;

verus! {

/// A single fungible-asset position: an amount of one denomination.
#[derive(Debug, PartialEq, Eq)]
pub struct Coin {
    pub denom: String,
    pub amount: u128,
}

/// The one record an escrow instance persists.
///
/// `owner`, `capital` and the two deadline fields are fixed at instantiation;
/// `sender` starts empty and records the caller of the most recent
/// successful transfer.
#[derive(Debug)]
pub struct State {
    pub owner: String,
    pub sender: Option<String>,
    pub capital: Vec<Coin>,
    pub end_height: Option<u64>,
    pub end_time: Option<u64>,
}

/// The host-supplied environment of one call: current ledger height and
/// current timestamp.
#[derive(Clone, Copy)]
pub struct Env {
    pub height: u64,
    pub time: u64,
}

/// The caller of one invocation: its address and the funds it attached.
pub struct MessageInfo {
    pub sender: String,
    pub funds: Vec<Coin>,
}

/// The contract's single storage slot, passed explicitly into every
/// operation. `state` is `None` until a successful instantiation writes it.
pub struct Store {
    pub state: Option<State>,
}

/// The expiry predicate: a deadline that is set and reached marks the state
/// expired; an unset bound imposes no constraint; either bound alone
/// suffices.
pub open spec fn spec_expired(state: State, env: Env) -> bool {
    ||| (state.end_height is Some && env.height >= state.end_height->0)
    ||| (state.end_time is Some && env.time >= state.end_time->0)
}

impl State {
    /// True iff either configured deadline has been reached in `env`; false
    /// whenever neither bound is set. Recomputed from the live environment
    /// on every call, never cached.
    pub fn is_expired(&self, env: &Env) -> (r: bool)
        ensures
            r == spec_expired(*self, *env),
    {
        let by_height = match self.end_height {
            Some(h) => env.height >= h,
            None => false,
        };
        let by_time = match self.end_time {
            Some(t) => env.time >= t,
            None => false,
        };
        by_height || by_time
    }
}

impl Store {
    /// A fresh, never-instantiated storage slot.
    pub fn new() -> (r: Store)
        ensures
            r.state is None,
    {
        Store { state: None }
    }
}

/// Two records carry the same escrow: equal owner and sender, coin lists
/// with equal contents, and equal deadlines. This is what a copy handed out
/// by a query guarantees about the stored record.
pub open spec fn same_state(a: State, b: State) -> bool {
    &&& a.owner == b.owner
    &&& a.sender == b.sender
    &&& a.capital@ == b.capital@
    &&& a.end_height == b.end_height
    &&& a.end_time == b.end_time
}

/// A copy of a coin list, element for element.
pub fn clone_coins(v: &Vec<Coin>) -> (r: Vec<Coin>)
    ensures
        r@ == v@,
{
    let mut r: Vec<Coin> = Vec::new();
    let mut i: usize = 0;
    while i < v.len()
        invariant
            0 <= i <= v@.len(),
            r@ == v@.take(i as int),
        decreases v@.len() - i,
    {
        let c = &v[i];
        r.push(Coin { denom: c.denom.clone(), amount: c.amount });
        proof {
            assert(v@.take(i as int).push(v@[i as int]) =~= v@.take(i as int + 1));
        }
        i = i + 1;
    }
    proof {
        assert(v@.take(v@.len() as int) =~= v@);
    }
    r
}

/// A copy of a stored record, as a storage load hands one out.
pub fn clone_state(s: &State) -> (r: State)
    ensures
        same_state(r, *s),
{
    State {
        owner: s.owner.clone(),
        sender: match &s.sender {
            Some(x) => Some(x.clone()),
            None => None,
        },
        capital: clone_coins(&s.capital),
        end_height: s.end_height,
        end_time: s.end_time,
    }
}

/// A state with neither deadline set is never expired, in any environment.
pub proof fn lemma_no_deadline_never_expires(state: State, env: Env)
    requires
        state.end_height is None,
        state.end_time is None,
    ensures
        !spec_expired(state, env),
{
}

/// Expiry is monotone: once a state is expired at some height and time, it
/// stays expired at every later height and time.
pub proof fn lemma_expiry_monotone(state: State, early: Env, late: Env)
    requires
        spec_expired(state, early),
        early.height <= late.height,
        early.time <= late.time,
    ensures
        spec_expired(state, late),
{
}

} // verus!
