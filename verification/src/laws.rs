//! The laws the accounting core obeys, stated once over the spec-level
//! transitions and proved for every reachable state — exact debits and
//! credits, all-or-nothing failure, create-once registration, and the
//! round trip from distribution back through withdrawal.

use vstd::prelude::*;

use crate::bank::{
    bank_inv, spec_distribute, spec_init_demander, spec_init_worker, spec_withdraw, BankModel,
};
use crate::auth::spec_authorized;
use crate::data::InitData;
use crate::errors::MyError;
use vstd::arithmetic::div_mod::{
    lemma_div_by_multiple, lemma_div_multiples_vanish, lemma_div_nonincreasing,
    lemma_remainder_lower,
};
use vstd::arithmetic::mul::lemma_mul_is_commutative;

verus! {

/// Distribution is exact on the paying side: whenever it succeeds, the
/// demander's escrow ends at precisely its old balance minus the
/// distributed amount — and whether it succeeds or fails, the ledgers
/// and token accounts of every uninvolved party are untouched, as are
/// the configuration and every currency account.
pub proof fn lemma_distribution_debits_exactly(
    m: BankModel,
    signer: u64,
    demander: u64,
    worker: u64,
    amount: u64,
)
    requires
        m.demanders.contains_key(demander),
        m.demanders[demander].balance >= amount,
    ensures
        ({
            let (post, result) = spec_distribute(m, signer, demander, worker, amount);
            &&& result is Ok ==> post.demanders[demander].balance == m.demanders[demander].balance
                - amount
            &&& post.demanders.remove(demander) == m.demanders.remove(demander)
            &&& post.workers.remove(worker) == m.workers.remove(worker)
            &&& post.dan.parties.remove(worker) == m.dan.parties.remove(worker)
            &&& post.dan.vault == m.dan.vault
            &&& post.usdc == m.usdc
            &&& post.config == m.config
        }),
{
    let (post, result) = spec_distribute(m, signer, demander, worker, amount);
    assert(post.demanders.remove(demander) =~= m.demanders.remove(demander));
    assert(post.workers.remove(worker) =~= m.workers.remove(worker));
    assert(post.dan.parties.remove(worker) =~= m.dan.parties.remove(worker));
}

/// Distribution is exact on the receiving side: whenever it succeeds,
/// the worker's allowance grows by exactly
/// `floor(amount * withdraw_percent / 100)` — never more.
pub proof fn lemma_distribution_allowance_gain(
    m: BankModel,
    signer: u64,
    demander: u64,
    worker: u64,
    amount: u64,
    cfg: InitData,
)
    requires
        m.config == Some(cfg),
        m.workers.contains_key(worker),
    ensures
        ({
            let (post, result) = spec_distribute(m, signer, demander, worker, amount);
            result is Ok ==> post.workers[worker].withdraw_limit == m.workers[worker].withdraw_limit
                + amount * cfg.withdraw_percent / 100
        }),
{
}

/// Every failing distribution is invisible: no ledger and no account
/// moves unless the whole operation commits.
pub proof fn lemma_distribution_atomic(
    m: BankModel,
    signer: u64,
    demander: u64,
    worker: u64,
    amount: u64,
)
    ensures
        ({
            let (post, result) = spec_distribute(m, signer, demander, worker, amount);
            result is Err ==> post == m
        }),
{
}

/// Every failing withdrawal is invisible: no ledger and no account
/// moves unless the whole operation commits.
pub proof fn lemma_withdrawal_atomic(m: BankModel, signer: u64, worker: u64, amount: u64)
    ensures
        ({
            let (post, result) = spec_withdraw(m, signer, worker, amount);
            result is Err ==> post == m
        }),
{
}

/// Registration is create-once: registering a worker identity that
/// already has a ledger fails with `AlreadyExists` and leaves the first
/// ledger's values — and everything else — unchanged.
pub proof fn lemma_duplicate_worker_registration_rejected(
    m: BankModel,
    worker: u64,
    withdraw_limit: u64,
)
    requires
        m.workers.contains_key(worker),
    ensures
        spec_init_worker(m, worker, withdraw_limit) == (m, Err::<(), MyError>(
            MyError::AlreadyExists,
        )),
{
}

/// Registration is create-once on the demander side as well.
pub proof fn lemma_duplicate_demander_registration_rejected(
    m: BankModel,
    demander: u64,
    balance: u64,
)
    requires
        m.demanders.contains_key(demander),
    ensures
        spec_init_demander(m, demander, balance) == (m, Err::<(), MyError>(
            MyError::AlreadyExists,
        )),
{
}

/// A zero token price is rejected when the configuration is created,
/// so the withdrawal conversion can never fault on its division: no
/// withdrawal outcome is ever `DivisionByZero`.
pub proof fn lemma_withdrawal_never_divides_by_zero(
    m: BankModel,
    signer: u64,
    worker: u64,
    amount: u64,
)
    requires
        bank_inv(m),
    ensures
        spec_withdraw(m, signer, worker, amount).1 != Err::<(), MyError>(MyError::DivisionByZero),
{
}

/// With a hundred-percent withdraw share, a distribution of `amount`
/// followed by a withdrawal of `token_price * floor(amount /
/// token_price)` tokens never trips the allowance check, and a
/// successful withdrawal returns the allowance to its old value plus
/// the forfeited remainder — at or above where it began, never
/// negative.
pub proof fn lemma_distribute_then_withdraw_allowance(
    m: BankModel,
    signer: u64,
    withdraw_signer: u64,
    demander: u64,
    worker: u64,
    amount: u64,
    cfg: InitData,
)
    requires
        bank_inv(m),
        m.config == Some(cfg),
        cfg.withdraw_percent == 100,
        m.demanders.contains_key(demander),
        m.workers.contains_key(worker),
        m.demanders[demander].balance >= amount,
        spec_distribute(m, signer, demander, worker, amount).1 is Ok,
        spec_authorized(m.policy, withdraw_signer, m.admin, worker),
    ensures
        ({
            let m1 = spec_distribute(m, signer, demander, worker, amount).0;
            let redeemed = amount as int / cfg.token_price as int;
            let tokens = (cfg.token_price * redeemed) as u64;
            let (m2, result) = spec_withdraw(m1, withdraw_signer, worker, tokens);
            &&& result != Err::<(), MyError>(MyError::OutOfWithdrawLimit)
            &&& result is Ok ==> m2.workers[worker].withdraw_limit
                == m.workers[worker].withdraw_limit + amount - redeemed
            &&& result is Ok ==> m2.workers[worker].withdraw_limit
                >= m.workers[worker].withdraw_limit
        }),
{
    let price = cfg.token_price as int;
    let a = amount as int;
    let redeemed = a / price;
    lemma_div_by_multiple(a, 100);
    lemma_div_nonincreasing(a, price);
    lemma_remainder_lower(a, price);
    lemma_mul_is_commutative(price, redeemed);
    lemma_div_multiples_vanish(redeemed, price);
    let m1 = spec_distribute(m, signer, demander, worker, amount).0;
    assert(m1.workers[worker].withdraw_limit == m.workers[worker].withdraw_limit + a);
    let tokens = (price * redeemed) as u64;
    assert(tokens as int / price == redeemed);
}

} // verus!
