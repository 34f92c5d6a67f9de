//! What a run of completed movements does to a balance.

use vstd::prelude::*;
use crate::vault::Movement;
use crate::vault::Vault;

verus! {

/// The sum of the amounts deposited in `history`.
pub open spec fn deposited(history: Seq<Movement>) -> nat
    decreases history.len(),
{
    if history.len() == 0 {
        0
    } else {
        deposited(history.drop_last()) + match history.last() {
            Movement::Deposit { amount } => amount as nat,
            Movement::Withdrawal { .. } => 0,
        }
    }
}

/// The sum of the amounts withdrawn in `history`.
pub open spec fn withdrawn(history: Seq<Movement>) -> nat
    decreases history.len(),
{
    if history.len() == 0 {
        0
    } else {
        withdrawn(history.drop_last()) + match history.last() {
            Movement::Deposit { .. } => 0,
            Movement::Withdrawal { amount } => amount as nat,
        }
    }
}

/// The record after every movement of `history` has succeeded in turn,
/// starting from `vault`; `None` as soon as one of them cannot.
pub open spec fn replay(vault: Vault, history: Seq<Movement>) -> Option<Vault>
    decreases history.len(),
{
    if history.len() == 0 {
        Some(vault)
    } else {
        match replay(vault, history.drop_last()) {
            Some(reached) => reached.after(history.last()),
            None => None,
        }
    }
}

/// After any run of successful deposits and withdrawals the balance is the
/// starting balance plus everything deposited minus everything withdrawn.
/// That figure lies between 0 and the largest balance, and neither the owner
/// nor the discriminant has moved.
pub proof fn lemma_balance_is_deposits_less_withdrawals(vault: Vault, history: Seq<Movement>)
    requires
        replay(vault, history) is Some,
    ensures
        replay(vault, history).unwrap().balance == vault.balance + deposited(history) - withdrawn(
            history,
        ),
        0 <= vault.balance + deposited(history) - withdrawn(history) <= u64::MAX,
        replay(vault, history).unwrap().owner == vault.owner,
        replay(vault, history).unwrap().bump == vault.bump,
    decreases history.len(),
{
    if history.len() > 0 {
        lemma_balance_is_deposits_less_withdrawals(vault, history.drop_last());
    }
}

/// A run that succeeds as a whole succeeded at every step: each prefix of it
/// replays too, so the balance was in range all along.
pub proof fn lemma_every_prefix_replays(vault: Vault, history: Seq<Movement>, n: int)
    requires
        replay(vault, history) is Some,
        0 <= n <= history.len(),
    ensures
        replay(vault, history.take(n)) is Some,
        0 <= vault.balance + deposited(history.take(n)) - withdrawn(history.take(n)) <= u64::MAX,
    decreases history.len(),
{
    if n == history.len() {
        assert(history.take(n) =~= history);
    } else {
        assert(history.drop_last().take(n) =~= history.take(n));
        lemma_every_prefix_replays(vault, history.drop_last(), n);
    }
    lemma_balance_is_deposits_less_withdrawals(vault, history.take(n));
}

} // verus!
