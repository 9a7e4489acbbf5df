use de_anno_token_program::auth::Policy;
use de_anno_token_program::bank::Bank;
use de_anno_token_program::data::InitData;
use de_anno_token_program::errors::MyError;

const ADMIN: u64 = 1;
const WORKER: u64 = 7;
const DEMANDER: u64 = 9;

fn configured_bank(token_price: u64, withdraw_percent: u64) -> Bank {
    let mut bank = Bank::new(ADMIN, Policy::CustodialAdmin);
    bank.initialize(
        ADMIN,
        String::from("https://example.org/dan.json"),
        String::from("DeAnno"),
        String::from("DAN"),
        token_price,
        withdraw_percent,
    )
    .unwrap();
    bank
}

#[test]
fn initialize_records_configuration() {
    let bank = configured_bank(10, 40);
    assert_eq!(
        bank.config(),
        Some(InitData { token_price: 10, withdraw_percent: 40 })
    );
    assert_eq!(bank.admin(), ADMIN);
    assert_eq!(bank.policy(), Policy::CustodialAdmin);
    let metadata = bank.metadata().as_ref().unwrap();
    assert_eq!(metadata.uri, "https://example.org/dan.json");
    assert_eq!(metadata.name, "DeAnno");
    assert_eq!(metadata.symbol, "DAN");
}

#[test]
fn initialize_rejects_non_admin() {
    let mut bank = Bank::new(ADMIN, Policy::CustodialAdmin);
    let r = bank.initialize(
        DEMANDER,
        String::from("u"),
        String::from("n"),
        String::from("s"),
        10,
        40,
    );
    assert_eq!(r, Err(MyError::AuthorizationFailure));
    assert_eq!(bank.config(), None);
}

#[test]
fn initialize_rejects_zero_token_price() {
    // A zero price is rejected at configuration time, not deferred to a
    // later division fault.
    let mut bank = Bank::new(ADMIN, Policy::CustodialAdmin);
    let r = bank.initialize(
        ADMIN,
        String::from("u"),
        String::from("n"),
        String::from("s"),
        0,
        40,
    );
    assert_eq!(r, Err(MyError::DivisionByZero));
    assert_eq!(bank.config(), None);
    assert!(bank.metadata().is_none());
}

#[test]
fn initialize_happens_exactly_once() {
    let mut bank = configured_bank(10, 40);
    let r = bank.initialize(
        ADMIN,
        String::from("u"),
        String::from("n"),
        String::from("s"),
        99,
        1,
    );
    assert_eq!(r, Err(MyError::AlreadyExists));
    assert_eq!(
        bank.config(),
        Some(InitData { token_price: 10, withdraw_percent: 40 })
    );
}

#[test]
fn register_worker_and_demander() {
    let mut bank = configured_bank(10, 40);
    bank.init_worker(WORKER, 3).unwrap();
    bank.init_demander(DEMANDER, 100).unwrap();
    assert_eq!(bank.worker(WORKER).unwrap().withdraw_limit, 3);
    assert_eq!(bank.demander(DEMANDER).unwrap().balance, 100);
}

#[test]
fn duplicate_worker_registration_fails() {
    let mut bank = configured_bank(10, 40);
    bank.init_worker(WORKER, 3).unwrap();
    let r = bank.init_worker(WORKER, 55);
    assert_eq!(r, Err(MyError::AlreadyExists));
    // The first ledger's values are unchanged by the rejected attempt.
    assert_eq!(bank.worker(WORKER).unwrap().withdraw_limit, 3);
}

#[test]
fn duplicate_demander_registration_fails() {
    let mut bank = configured_bank(10, 40);
    bank.init_demander(DEMANDER, 100).unwrap();
    let r = bank.init_demander(DEMANDER, 1);
    assert_eq!(r, Err(MyError::AlreadyExists));
    assert_eq!(bank.demander(DEMANDER).unwrap().balance, 100);
}

#[test]
fn unregistered_parties_are_not_found() {
    let bank = configured_bank(10, 40);
    assert_eq!(bank.worker(WORKER), Err(MyError::NotFound));
    assert_eq!(bank.demander(DEMANDER), Err(MyError::NotFound));
}

#[test]
fn escrow_deposit_funds_the_vault() {
    let mut bank = configured_bank(10, 40);
    bank.deposit_escrow(5_000_000).unwrap();
    bank.deposit_escrow(5_000_000).unwrap();
    assert_eq!(bank.currency_vault_balance(), 10_000_000);
}

#[test]
fn escrow_deposit_overflow_is_rejected() {
    let mut bank = configured_bank(10, 40);
    bank.deposit_escrow(u64::MAX).unwrap();
    let r = bank.deposit_escrow(1);
    assert_eq!(r, Err(MyError::ArithmeticOverflow));
    assert_eq!(bank.currency_vault_balance(), u64::MAX);
}
