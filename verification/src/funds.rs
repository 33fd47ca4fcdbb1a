//! Fund matching: the two equality policies between the funds a caller
//! attaches and the stored capital.
//!
//! Structural matching compares the two coin lists as unordered collections:
//! same denominations, same amounts, same multiplicities, in any order.
//! Scalar matching compares only the numeric amount of a sole attached coin
//! against the numeric amount of a sole capital entry, ignoring
//! denominations.

use vstd::prelude::*;

use crate::state::Coin;

verus! {

/// The fund-equality policy a contract instance enforces.
#[derive(Clone, Copy, Debug)]
pub enum FundsPolicy {
    /// The attached coin list must equal the capital list as an unordered
    /// collection of (denomination, amount) pairs.
    Exact,
    /// Only the numeric amount of the sole attached coin is compared to the
    /// numeric amount of the sole capital entry; denominations are ignored.
    Scalar,
}

/// Two coins agree in denomination and amount.
pub open spec fn coin_matches(a: Coin, b: Coin) -> bool {
    a.denom@ == b.denom@ && a.amount == b.amount
}

/// How many coins of `s` agree with `c`.
pub open spec fn coin_count(s: Seq<Coin>, c: Coin) -> nat
    decreases s.len(),
{
    if s.len() == 0 {
        0
    } else {
        coin_count(s.drop_last(), c) + if coin_matches(s.last(), c) {
            1nat
        } else {
            0nat
        }
    }
}

/// The structural policy's equality: the two lists have the same length and
/// every coin occurs in both with the same multiplicity — equality of the
/// underlying unordered collections.
pub open spec fn structural_match(sent: Seq<Coin>, capital: Seq<Coin>) -> bool {
    &&& sent.len() == capital.len()
    &&& forall|c: Coin|
        #![trigger coin_count(sent, c)]
        #![trigger coin_count(capital, c)]
        coin_count(sent, c) == coin_count(capital, c)
}

/// The scalar policy's equality: exactly one coin on each side, with equal
/// amounts; denominations play no part.
pub open spec fn scalar_match(sent: Seq<Coin>, capital: Seq<Coin>) -> bool {
    sent.len() == 1 && capital.len() == 1 && sent[0].amount == capital[0].amount
}

/// The equality the chosen policy demands.
pub open spec fn spec_funds_match(policy: FundsPolicy, sent: Seq<Coin>, capital: Seq<Coin>) -> bool {
    match policy {
        FundsPolicy::Exact => structural_match(sent, capital),
        FundsPolicy::Scalar => scalar_match(sent, capital),
    }
}

proof fn lemma_count_positive_has_witness(s: Seq<Coin>, c: Coin)
    requires
        coin_count(s, c) > 0,
    ensures
        exists|i: int| 0 <= i < s.len() && coin_matches(#[trigger] s[i], c),
    decreases s.len(),
{
    if coin_matches(s.last(), c) {
        assert(coin_matches(s[s.len() - 1], c));
    } else {
        lemma_count_positive_has_witness(s.drop_last(), c);
        let i = choose|i: int| 0 <= i < s.drop_last().len() && coin_matches(#[trigger] s.drop_last()[i], c);
        assert(coin_matches(s[i], c));
    }
}

proof fn lemma_count_respects_match(s: Seq<Coin>, c: Coin, d: Coin)
    requires
        coin_matches(c, d),
    ensures
        coin_count(s, c) == coin_count(s, d),
    decreases s.len(),
{
    if s.len() > 0 {
        lemma_count_respects_match(s.drop_last(), c, d);
    }
}

proof fn lemma_count_take_step(s: Seq<Coin>, c: Coin, i: int)
    requires
        0 <= i < s.len(),
    ensures
        coin_count(s.take(i + 1), c) == coin_count(s.take(i), c) + if coin_matches(s[i], c) {
            1nat
        } else {
            0nat
        },
{
    assert(s.take(i + 1).drop_last() =~= s.take(i));
    assert(s.take(i + 1).last() == s[i]);
}

/// Whether two coins agree in denomination and amount.
pub fn coin_eq(a: &Coin, b: &Coin) -> (r: bool)
    ensures
        r == coin_matches(*a, *b),
{
    a.amount == b.amount && a.denom == b.denom
}

/// How many coins of `v` agree with `c`.
pub fn count_matching(v: &Vec<Coin>, c: &Coin) -> (n: usize)
    ensures
        n == coin_count(v@, *c),
{
    let mut n: usize = 0;
    let mut i: usize = 0;
    while i < v.len()
        invariant
            0 <= i <= v@.len(),
            n <= i,
            n == coin_count(v@.take(i as int), *c),
        decreases v@.len() - i,
    {
        proof {
            lemma_count_take_step(v@, *c, i as int);
        }
        if coin_eq(&v[i], c) {
            n = n + 1;
        }
        i = i + 1;
    }
    proof {
        assert(v@.take(v@.len() as int) =~= v@);
    }
    n
}

fn coins_match_structural(sent: &Vec<Coin>, capital: &Vec<Coin>) -> (r: bool)
    ensures
        r == structural_match(sent@, capital@),
{
    if sent.len() != capital.len() {
        return false;
    }
    let mut i: usize = 0;
    while i < sent.len()
        invariant
            sent@.len() == capital@.len(),
            0 <= i <= sent@.len(),
            forall|k: int|
                0 <= k < i ==> coin_count(sent@, #[trigger] sent@[k]) == coin_count(
                    capital@,
                    sent@[k],
                ),
        decreases sent@.len() - i,
    {
        let ours = count_matching(sent, &sent[i]);
        let theirs = count_matching(capital, &sent[i]);
        if ours != theirs {
            return false;
        }
        i = i + 1;
    }
    let mut j: usize = 0;
    while j < capital.len()
        invariant
            sent@.len() == capital@.len(),
            0 <= j <= capital@.len(),
            forall|k: int|
                0 <= k < sent@.len() ==> coin_count(sent@, #[trigger] sent@[k]) == coin_count(
                    capital@,
                    sent@[k],
                ),
            forall|k: int|
                0 <= k < j ==> coin_count(sent@, #[trigger] capital@[k]) == coin_count(
                    capital@,
                    capital@[k],
                ),
        decreases capital@.len() - j,
    {
        let ours = count_matching(sent, &capital[j]);
        let theirs = count_matching(capital, &capital[j]);
        if ours != theirs {
            return false;
        }
        j = j + 1;
    }
    proof {
        assert forall|c: Coin| coin_count(sent@, c) == coin_count(capital@, c) by {
            if coin_count(sent@, c) > 0 {
                lemma_count_positive_has_witness(sent@, c);
                let i = choose|i: int| 0 <= i < sent@.len() && coin_matches(#[trigger] sent@[i], c);
                lemma_count_respects_match(sent@, sent@[i], c);
                lemma_count_respects_match(capital@, sent@[i], c);
            } else if coin_count(capital@, c) > 0 {
                lemma_count_positive_has_witness(capital@, c);
                let j = choose|j: int|
                    0 <= j < capital@.len() && coin_matches(#[trigger] capital@[j], c);
                lemma_count_respects_match(sent@, capital@[j], c);
                lemma_count_respects_match(capital@, capital@[j], c);
            }
        }
    }
    true
}

fn coins_match_scalar(sent: &Vec<Coin>, capital: &Vec<Coin>) -> (r: bool)
    ensures
        r == scalar_match(sent@, capital@),
{
    sent.len() == 1 && capital.len() == 1 && sent[0].amount == capital[0].amount
}

/// Whether the attached funds equal the stored capital under the chosen
/// policy.
pub fn funds_match(policy: &FundsPolicy, sent: &Vec<Coin>, capital: &Vec<Coin>) -> (r: bool)
    ensures
        r == spec_funds_match(*policy, sent@, capital@),
{
    match policy {
        FundsPolicy::Exact => coins_match_structural(sent, capital),
        FundsPolicy::Scalar => coins_match_scalar(sent, capital),
    }
}

} // verus!
