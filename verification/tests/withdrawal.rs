use de_anno_token_program::auth::Policy;
use de_anno_token_program::bank::Bank;
use de_anno_token_program::errors::MyError;

const ADMIN: u64 = 1;
const WORKER: u64 = 7;
const DEMANDER: u64 = 9;

/// A bank where the worker already holds tokens earned through a
/// distribution, and the vault has been funded with escrow currency.
fn bank_after_distribution(
    token_price: u64,
    withdraw_percent: u64,
    balance: u64,
    distributed: u64,
    vault_currency: u64,
) -> Bank {
    let mut bank = Bank::new(ADMIN, Policy::CustodialAdmin);
    bank.initialize(
        ADMIN,
        String::from("uri"),
        String::from("DeAnno"),
        String::from("DAN"),
        token_price,
        withdraw_percent,
    )
    .unwrap();
    bank.init_worker(WORKER, 0).unwrap();
    bank.init_demander(DEMANDER, balance).unwrap();
    bank.deposit_escrow(vault_currency).unwrap();
    bank.token_distribution(ADMIN, DEMANDER, WORKER, distributed).unwrap();
    bank
}

#[test]
fn withdrawal_beyond_allowance_fails() {
    // price 10, allowance 3: requesting 50 tokens converts to 5 currency
    // units, 5 > 3, so the withdrawal fails and the allowance stays 3.
    let mut bank = Bank::new(ADMIN, Policy::CustodialAdmin);
    bank.initialize(
        ADMIN,
        String::from("uri"),
        String::from("DeAnno"),
        String::from("DAN"),
        10,
        40,
    )
    .unwrap();
    bank.init_worker(WORKER, 3).unwrap();
    let r = bank.worker_withdraw(ADMIN, WORKER, 50);
    assert_eq!(r, Err(MyError::OutOfWithdrawLimit));
    assert_eq!(bank.worker(WORKER).unwrap().withdraw_limit, 3);
}

#[test]
fn withdrawal_moves_both_assets_exactly() {
    // Distributing 10 currency units at price 10 and a hundred-percent
    // share leaves the worker with 100 tokens and allowance 10. The
    // worker then redeems all 100 tokens: withdraw_amount = 100 / 10 =
    // 10, the allowance ends at 0, the worker receives 10 * 10^6
    // currency base units and loses 100 * 10^9 token base units.
    let mut bank = bank_after_distribution(10, 100, 10, 10, 10_000_000);
    assert_eq!(bank.worker(WORKER).unwrap().withdraw_limit, 10);
    assert_eq!(bank.token_balance(WORKER), 100_000_000_000);

    bank.worker_withdraw(ADMIN, WORKER, 100).unwrap();
    assert_eq!(bank.worker(WORKER).unwrap().withdraw_limit, 0);
    assert_eq!(bank.token_balance(WORKER), 0);
    assert_eq!(bank.token_vault_balance(), 100_000_000_000);
    assert_eq!(bank.currency_balance(WORKER), 10_000_000);
    assert_eq!(bank.currency_vault_balance(), 0);
}

#[test]
fn withdrawal_forfeits_the_remainder() {
    // 95 tokens at price 10 redeem floor(95 / 10) = 9 currency units;
    // the remainder is forfeited by design, and all 95 tokens move.
    let mut bank = bank_after_distribution(10, 100, 10, 10, 10_000_000);
    bank.worker_withdraw(ADMIN, WORKER, 95).unwrap();
    assert_eq!(bank.worker(WORKER).unwrap().withdraw_limit, 1);
    assert_eq!(bank.token_balance(WORKER), 5_000_000_000);
    assert_eq!(bank.currency_balance(WORKER), 9_000_000);
    assert_eq!(bank.currency_vault_balance(), 1_000_000);
}

#[test]
fn distribute_then_withdraw_returns_allowance_to_start() {
    // The round trip: distribute 25 with a hundred-percent share, then
    // withdraw price * floor(25 / price) = 240 tokens. The allowance
    // comes back to its initial value plus the forfeited remainder of
    // one currency unit — never below where it began.
    let mut bank = bank_after_distribution(12, 100, 100, 25, 100_000_000);
    assert_eq!(bank.worker(WORKER).unwrap().withdraw_limit, 25);
    bank.worker_withdraw(ADMIN, WORKER, 240).unwrap();
    assert_eq!(bank.worker(WORKER).unwrap().withdraw_limit, 5);
    assert_eq!(bank.token_balance(WORKER), 60_000_000_000);
}

#[test]
fn withdrawal_of_zero_moves_nothing() {
    let mut bank = bank_after_distribution(10, 100, 10, 10, 10_000_000);
    bank.worker_withdraw(ADMIN, WORKER, 0).unwrap();
    assert_eq!(bank.worker(WORKER).unwrap().withdraw_limit, 10);
    assert_eq!(bank.token_balance(WORKER), 100_000_000_000);
    assert_eq!(bank.currency_balance(WORKER), 0);
}

#[test]
fn withdrawal_requires_authorization() {
    let mut bank = bank_after_distribution(10, 100, 10, 10, 10_000_000);
    let r = bank.worker_withdraw(WORKER, WORKER, 100);
    assert_eq!(r, Err(MyError::AuthorizationFailure));
    assert_eq!(bank.worker(WORKER).unwrap().withdraw_limit, 10);
}

#[test]
fn direct_signer_policy_lets_the_worker_withdraw() {
    let mut bank = Bank::new(ADMIN, Policy::DirectSigner);
    bank.initialize(
        ADMIN,
        String::from("uri"),
        String::from("DeAnno"),
        String::from("DAN"),
        10,
        100,
    )
    .unwrap();
    bank.init_worker(WORKER, 0).unwrap();
    bank.init_demander(DEMANDER, 10).unwrap();
    bank.deposit_escrow(10_000_000).unwrap();
    bank.token_distribution(DEMANDER, DEMANDER, WORKER, 10).unwrap();
    assert_eq!(
        bank.worker_withdraw(ADMIN, WORKER, 100),
        Err(MyError::AuthorizationFailure)
    );
    bank.worker_withdraw(WORKER, WORKER, 100).unwrap();
    assert_eq!(bank.currency_balance(WORKER), 10_000_000);
}

#[test]
fn withdrawal_of_unregistered_worker_fails() {
    let mut bank = Bank::new(ADMIN, Policy::CustodialAdmin);
    bank.initialize(
        ADMIN,
        String::from("uri"),
        String::from("DeAnno"),
        String::from("DAN"),
        10,
        100,
    )
    .unwrap();
    assert_eq!(bank.worker_withdraw(ADMIN, WORKER, 100), Err(MyError::NotFound));
}

#[test]
fn withdrawal_before_configuration_fails() {
    let mut bank = Bank::new(ADMIN, Policy::CustodialAdmin);
    bank.init_worker(WORKER, 10).unwrap();
    assert_eq!(bank.worker_withdraw(ADMIN, WORKER, 100), Err(MyError::NotFound));
}

#[test]
fn withdrawal_without_tokens_fails_as_transfer_failure() {
    // Allowance is ample but the worker holds no tokens to swap: the
    // token-leg transfer fails and nothing moves.
    let mut bank = Bank::new(ADMIN, Policy::CustodialAdmin);
    bank.initialize(
        ADMIN,
        String::from("uri"),
        String::from("DeAnno"),
        String::from("DAN"),
        10,
        100,
    )
    .unwrap();
    bank.init_worker(WORKER, 50).unwrap();
    let r = bank.worker_withdraw(ADMIN, WORKER, 100);
    assert_eq!(r, Err(MyError::TransferFailed));
    assert_eq!(bank.worker(WORKER).unwrap().withdraw_limit, 50);
}

#[test]
fn withdrawal_from_unfunded_vault_fails_as_transfer_failure() {
    // The worker has tokens and allowance, but the vault holds no
    // currency: the currency-leg transfer fails and nothing moves,
    // tokens included.
    let mut bank = bank_after_distribution(10, 100, 10, 10, 0);
    let r = bank.worker_withdraw(ADMIN, WORKER, 100);
    assert_eq!(r, Err(MyError::TransferFailed));
    assert_eq!(bank.worker(WORKER).unwrap().withdraw_limit, 10);
    assert_eq!(bank.token_balance(WORKER), 100_000_000_000);
    assert_eq!(bank.token_vault_balance(), 0);
}

#[test]
fn withdrawal_scaling_overflow_is_rejected() {
    // 2^60 tokens cannot be scaled to base units within range; the
    // conversion is checked and the operation aborts untouched.
    let mut bank = Bank::new(ADMIN, Policy::CustodialAdmin);
    bank.initialize(
        ADMIN,
        String::from("uri"),
        String::from("DeAnno"),
        String::from("DAN"),
        1,
        100,
    )
    .unwrap();
    bank.init_worker(WORKER, u64::MAX).unwrap();
    let r = bank.worker_withdraw(ADMIN, WORKER, 1u64 << 60);
    assert_eq!(r, Err(MyError::ArithmeticOverflow));
    assert_eq!(bank.worker(WORKER).unwrap().withdraw_limit, u64::MAX);
}
