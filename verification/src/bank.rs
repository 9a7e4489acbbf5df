use vstd::prelude::*;

use crate::auth::{authorize, spec_authorized, Policy, VaultAuthority};
use crate::data::{DemanderData, InitData, MintMetadata, MintMetadataModel, WorkerData};
use crate::errors::MyError;
use crate::store::LedgerStore;
use crate::token::{TokenLedger, TokenLedgerModel};
use crate::units::{pow10, to_base_units, DAN_DECIMALS, USDC_DECIMALS};
use vstd::arithmetic::div_mod::{lemma_div_by_multiple, lemma_div_is_ordered};
use vstd::arithmetic::mul::{lemma_mul_inequality, lemma_mul_is_commutative};

verus! {

/// The mathematical content of a [`Bank`]: the full state that the five
/// operations read and transform.
#[verifier::ext_equal]
pub ghost struct BankModel {
    /// The active authorization scheme for the two value-moving
    /// operations.
    pub policy: Policy,
    /// The fixed administrator identity.
    pub admin: u64,
    /// The singleton configuration ledger, absent until `initialize`.
    pub config: Option<InitData>,
    /// What was handed to the metadata collaborator at configuration
    /// time.
    pub metadata: Option<MintMetadataModel>,
    /// One allowance ledger per worker identity.
    pub workers: Map<u64, WorkerData>,
    /// One escrow ledger per demander identity.
    pub demanders: Map<u64, DemanderData>,
    /// Holding accounts of the work token, in base units.
    pub dan: TokenLedgerModel,
    /// Holding accounts of the escrow currency, in base units.
    pub usdc: TokenLedgerModel,
}

/// The bank invariant: once the configuration exists it is well formed.
/// `initialize` establishes it — a zero token price is rejected there,
/// at configuration time, so the withdrawal engine never re-checks its
/// divisor — and no operation mutates the configuration afterwards.
pub open spec fn bank_inv(m: BankModel) -> bool {
    match m.config {
        Some(cfg) => cfg.wf(),
        None => true,
    }
}

/// What `initialize` means. The administrator alone may configure the
/// protocol, exactly once, and a configuration whose token price is zero
/// is rejected outright rather than deferred to a division fault.
pub open spec fn spec_initialize(
    m: BankModel,
    signer: u64,
    uri: Seq<char>,
    name: Seq<char>,
    symbol: Seq<char>,
    token_price: u64,
    withdraw_percent: u64,
) -> (BankModel, Result<(), MyError>) {
    if signer != m.admin {
        (m, Err(MyError::AuthorizationFailure))
    } else if m.config is Some {
        (m, Err(MyError::AlreadyExists))
    } else if token_price == 0 {
        (m, Err(MyError::DivisionByZero))
    } else {
        (
            BankModel {
                config: Some(InitData { token_price, withdraw_percent }),
                metadata: Some(MintMetadataModel { uri, name, symbol }),
                ..m
            },
            Ok(()),
        )
    }
}

/// What `init_worker` means: create-once registration of a worker's
/// allowance ledger under the worker's own (authenticated) identity.
pub open spec fn spec_init_worker(m: BankModel, worker: u64, withdraw_limit: u64) -> (
    BankModel,
    Result<(), MyError>,
) {
    if m.workers.contains_key(worker) {
        (m, Err(MyError::AlreadyExists))
    } else {
        (
            BankModel { workers: m.workers.insert(worker, WorkerData { withdraw_limit }), ..m },
            Ok(()),
        )
    }
}

/// What `init_demander` means: create-once registration of a demander's
/// escrow ledger under the demander's own (authenticated) identity.
pub open spec fn spec_init_demander(m: BankModel, demander: u64, balance: u64) -> (
    BankModel,
    Result<(), MyError>,
) {
    if m.demanders.contains_key(demander) {
        (m, Err(MyError::AlreadyExists))
    } else {
        (
            BankModel { demanders: m.demanders.insert(demander, DemanderData { balance }), ..m },
            Ok(()),
        )
    }
}

/// What `token_distribution` means. `amount` is in currency units. The
/// demander's escrow is debited by exactly `amount`; the worker's token
/// account is minted `amount * token_price` tokens, scaled to base
/// units in one overflow-checked conversion; and the worker's allowance
/// grows by exactly `floor(amount * withdraw_percent / 100)` — the
/// truncation is deliberate policy. Any failure leaves every ledger as
/// it was.
pub open spec fn spec_distribute(
    m: BankModel,
    signer: u64,
    demander: u64,
    worker: u64,
    amount: u64,
) -> (BankModel, Result<(), MyError>) {
    if !spec_authorized(m.policy, signer, m.admin, demander) {
        (m, Err(MyError::AuthorizationFailure))
    } else {
        match m.config {
            None => (m, Err(MyError::NotFound)),
            Some(cfg) => {
                if !m.demanders.contains_key(demander) {
                    (m, Err(MyError::NotFound))
                } else if !m.workers.contains_key(worker) {
                    (m, Err(MyError::NotFound))
                } else if m.demanders[demander].balance < amount {
                    (m, Err(MyError::InsufficientBalance))
                } else if amount * cfg.token_price > u64::MAX {
                    (m, Err(MyError::ArithmeticOverflow))
                } else if amount * cfg.token_price * pow10(DAN_DECIMALS as nat) > u64::MAX {
                    (m, Err(MyError::ArithmeticOverflow))
                } else {
                    let mint_base = (amount * cfg.token_price * pow10(DAN_DECIMALS as nat)) as u64;
                    let allowance_gain = amount * cfg.withdraw_percent / 100;
                    if m.workers[worker].withdraw_limit + allowance_gain > u64::MAX {
                        (m, Err(MyError::ArithmeticOverflow))
                    } else if m.dan.balance_of(worker) + mint_base > u64::MAX {
                        (m, Err(MyError::ArithmeticOverflow))
                    } else {
                        (
                            BankModel {
                                demanders: m.demanders.insert(
                                    demander,
                                    DemanderData {
                                        balance: (m.demanders[demander].balance - amount) as u64,
                                    },
                                ),
                                workers: m.workers.insert(
                                    worker,
                                    WorkerData {
                                        withdraw_limit: (m.workers[worker].withdraw_limit
                                            + allowance_gain) as u64,
                                    },
                                ),
                                dan: TokenLedgerModel {
                                    vault: m.dan.vault,
                                    parties: m.dan.parties.insert(
                                        worker,
                                        (m.dan.balance_of(worker) + mint_base) as u64,
                                    ),
                                },
                                ..m
                            },
                            Ok(()),
                        )
                    }
                }
            },
        }
    }
}

/// What `worker_withdraw` means. `amount` is in token units; the worker
/// redeems `floor(amount / token_price)` currency units — a request that
/// is not a multiple of the price forfeits the remainder, deliberately.
/// The tokens move from the worker to the vault and the currency from
/// the vault to the worker, both signed by the one vault identity, and
/// the allowance shrinks by the redeemed amount. Any failure leaves
/// every ledger and account as it was.
pub open spec fn spec_withdraw(m: BankModel, signer: u64, worker: u64, amount: u64) -> (
    BankModel,
    Result<(), MyError>,
) {
    if !spec_authorized(m.policy, signer, m.admin, worker) {
        (m, Err(MyError::AuthorizationFailure))
    } else {
        match m.config {
            None => (m, Err(MyError::NotFound)),
            Some(cfg) => {
                if !m.workers.contains_key(worker) {
                    (m, Err(MyError::NotFound))
                } else {
                    let withdraw_amount = amount as int / cfg.token_price as int;
                    if m.workers[worker].withdraw_limit < withdraw_amount {
                        (m, Err(MyError::OutOfWithdrawLimit))
                    } else if amount * pow10(DAN_DECIMALS as nat) > u64::MAX {
                        (m, Err(MyError::ArithmeticOverflow))
                    } else if withdraw_amount * pow10(USDC_DECIMALS as nat) > u64::MAX {
                        (m, Err(MyError::ArithmeticOverflow))
                    } else {
                        let token_base = (amount * pow10(DAN_DECIMALS as nat)) as u64;
                        let currency_base = (withdraw_amount * pow10(USDC_DECIMALS as nat)) as u64;
                        if m.dan.balance_of(worker) < token_base {
                            (m, Err(MyError::TransferFailed))
                        } else if m.dan.vault + token_base > u64::MAX {
                            (m, Err(MyError::ArithmeticOverflow))
                        } else if m.usdc.vault < currency_base {
                            (m, Err(MyError::TransferFailed))
                        } else if m.usdc.balance_of(worker) + currency_base > u64::MAX {
                            (m, Err(MyError::ArithmeticOverflow))
                        } else {
                            (
                                BankModel {
                                    workers: m.workers.insert(
                                        worker,
                                        WorkerData {
                                            withdraw_limit: (m.workers[worker].withdraw_limit
                                                - withdraw_amount) as u64,
                                        },
                                    ),
                                    dan: TokenLedgerModel {
                                        vault: (m.dan.vault + token_base) as u64,
                                        parties: m.dan.parties.insert(
                                            worker,
                                            (m.dan.balance_of(worker) - token_base) as u64,
                                        ),
                                    },
                                    usdc: TokenLedgerModel {
                                        vault: (m.usdc.vault - currency_base) as u64,
                                        parties: m.usdc.parties.insert(
                                            worker,
                                            (m.usdc.balance_of(worker) + currency_base) as u64,
                                        ),
                                    },
                                    ..m
                                },
                                Ok(()),
                            )
                        }
                    }
                }
            },
        }
    }
}

/// What `deposit_escrow` means: an external inflow of currency base
/// units into the vault's holding account.
pub open spec fn spec_deposit_escrow(m: BankModel, base_amount: u64) -> (
    BankModel,
    Result<(), MyError>,
) {
    if m.usdc.vault + base_amount > u64::MAX {
        (m, Err(MyError::ArithmeticOverflow))
    } else {
        (
            BankModel {
                usdc: TokenLedgerModel {
                    vault: (m.usdc.vault + base_amount) as u64,
                    ..m.usdc
                },
                ..m
            },
            Ok(()),
        )
    }
}

/// The accounting core as one state machine: the three ledger kinds, the
/// holding accounts of both assets, the fixed administrator and the
/// active authorization policy. Each public operation is an indivisible
/// transaction — it either commits fully or has no observable effect —
/// and its meaning is pinned by the matching `spec_` transition.
pub struct Bank {
    policy: Policy,
    admin: u64,
    config: Option<InitData>,
    metadata: Option<MintMetadata>,
    workers: LedgerStore<WorkerData>,
    demanders: LedgerStore<DemanderData>,
    dan: TokenLedger,
    usdc: TokenLedger,
}

impl View for Bank {
    type V = BankModel;

    closed spec fn view(&self) -> BankModel {
        BankModel {
            policy: self.policy,
            admin: self.admin,
            config: self.config,
            metadata: match self.metadata {
                Some(md) => Some(md@),
                None => None,
            },
            workers: self.workers@,
            demanders: self.demanders@,
            dan: self.dan@,
            usdc: self.usdc@,
        }
    }
}

impl Bank {
    /// An unconfigured bank under the given administrator and
    /// authorization policy.
    pub fn new(admin: u64, policy: Policy) -> (b: Bank)
        ensures
            b@ == (BankModel {
                policy,
                admin,
                config: None,
                metadata: None,
                workers: Map::<u64, WorkerData>::empty(),
                demanders: Map::<u64, DemanderData>::empty(),
                dan: TokenLedgerModel { vault: 0, parties: Map::<u64, u64>::empty() },
                usdc: TokenLedgerModel { vault: 0, parties: Map::<u64, u64>::empty() },
            }),
            bank_inv(b@),
    {
        Bank {
            policy,
            admin,
            config: None,
            metadata: None,
            workers: LedgerStore::new(),
            demanders: LedgerStore::new(),
            dan: TokenLedger::new(),
            usdc: TokenLedger::new(),
        }
    }

    /// Creates the configuration ledger and requests mint and metadata
    /// creation from the collaborators. Administrator-gated under every
    /// policy; rejects a zero token price at configuration time. The
    /// withdraw share must already be a percentage — callers outside
    /// verified code check `withdraw_percent <= 100` before calling.
    pub fn initialize(
        &mut self,
        signer: u64,
        uri: String,
        name: String,
        symbol: String,
        token_price: u64,
        withdraw_percent: u64,
    ) -> (r: Result<(), MyError>)
        requires
            withdraw_percent <= 100,
            bank_inv(old(self)@),
        ensures
            ({
                let (post, result) = spec_initialize(
                    old(self)@,
                    signer,
                    uri@,
                    name@,
                    symbol@,
                    token_price,
                    withdraw_percent,
                );
                final(self)@ == post && r == result
            }),
            bank_inv(final(self)@),
    {
        if signer != self.admin {
            return Err(MyError::AuthorizationFailure);
        }
        if self.config.is_some() {
            return Err(MyError::AlreadyExists);
        }
        if token_price == 0 {
            return Err(MyError::DivisionByZero);
        }
        self.config = Some(InitData { token_price, withdraw_percent });
        self.metadata = Some(MintMetadata { uri, name, symbol });
        Ok(())
    }

    /// Registers a worker's allowance ledger, exactly once per identity.
    /// `worker` is the authenticated caller: registration is signed by
    /// the party itself under either policy.
    pub fn init_worker(&mut self, worker: u64, withdraw_limit: u64) -> (r: Result<(), MyError>)
        ensures
            ({
                let (post, result) = spec_init_worker(old(self)@, worker, withdraw_limit);
                final(self)@ == post && r == result
            }),
            bank_inv(old(self)@) ==> bank_inv(final(self)@),
    {
        self.workers.create(worker, WorkerData { withdraw_limit })
    }

    /// Registers a demander's escrow ledger, exactly once per identity.
    /// `demander` is the authenticated caller.
    pub fn init_demander(&mut self, demander: u64, balance: u64) -> (r: Result<(), MyError>)
        ensures
            ({
                let (post, result) = spec_init_demander(old(self)@, demander, balance);
                final(self)@ == post && r == result
            }),
            bank_inv(old(self)@) ==> bank_inv(final(self)@),
    {
        self.demanders.create(demander, DemanderData { balance })
    }

    /// The distribution engine: debits the demander's escrow by `amount`
    /// currency units, mints the converted token amount to the worker,
    /// and credits the worker's allowance — all or nothing, as
    /// [`spec_distribute`] states.
    pub fn token_distribution(
        &mut self,
        signer: u64,
        demander: u64,
        worker: u64,
        amount: u64,
    ) -> (r: Result<(), MyError>)
        requires
            bank_inv(old(self)@),
        ensures
            ({
                let (post, result) = spec_distribute(old(self)@, signer, demander, worker, amount);
                final(self)@ == post && r == result
            }),
            bank_inv(final(self)@),
    {
        match authorize(self.policy, signer, self.admin, demander) {
            Ok(()) => (),
            Err(e) => {
                return Err(e);
            },
        }
        let cfg = match self.config {
            Some(c) => c,
            None => {
                return Err(MyError::NotFound);
            },
        };
        let demander_data = match self.demanders.load(demander) {
            Ok(d) => d,
            Err(e) => {
                return Err(e);
            },
        };
        let worker_data = match self.workers.load(worker) {
            Ok(w) => w,
            Err(e) => {
                return Err(e);
            },
        };
        if demander_data.balance < amount {
            return Err(MyError::InsufficientBalance);
        }
        // Both multiplications of the currency-to-token conversion are
        // checked as one step; no unchecked multiply feeds a checked one.
        let minted_units = match amount.checked_mul(cfg.token_price) {
            Some(v) => v,
            None => {
                return Err(MyError::ArithmeticOverflow);
            },
        };
        let mint_base = match to_base_units(minted_units, DAN_DECIMALS) {
            Ok(b) => b,
            Err(e) => {
                return Err(e);
            },
        };
        // floor(amount * withdraw_percent / 100): the remainder of a
        // partial percent is dropped, not rounded. The product is exact
        // in the wide type, and the quotient fits because the percentage
        // is at most 100.
        proof {
            lemma_mul_is_commutative(amount as int, cfg.withdraw_percent as int);
            lemma_mul_inequality(cfg.withdraw_percent as int, 100, amount as int);
            lemma_div_is_ordered(
                amount as int * cfg.withdraw_percent as int,
                amount as int * 100,
                100,
            );
            lemma_div_by_multiple(amount as int, 100);
        }
        let gain_wide: u128 = (amount as u128) * (cfg.withdraw_percent as u128) / 100;
        let allowance_gain: u64 = gain_wide as u64;
        let new_limit = match worker_data.withdraw_limit.checked_add(allowance_gain) {
            Some(v) => v,
            None => {
                return Err(MyError::ArithmeticOverflow);
            },
        };
        let worker_dan = self.dan.party_balance(worker);
        if mint_base > u64::MAX - worker_dan {
            return Err(MyError::ArithmeticOverflow);
        }
        // Every check has passed: commit all three effects.
        let vault_auth = VaultAuthority::derive_from_namespace();
        self.dan.mint_to_party(&vault_auth, worker, mint_base);
        self.demanders.put(demander, DemanderData { balance: demander_data.balance - amount });
        self.workers.put(worker, WorkerData { withdraw_limit: new_limit });
        Ok(())
    }

    /// The withdrawal engine: converts `amount` tokens back to currency
    /// within the worker's allowance, swapping tokens for currency
    /// through the vault — all or nothing, as [`spec_withdraw`] states.
    pub fn worker_withdraw(&mut self, signer: u64, worker: u64, amount: u64) -> (r: Result<
        (),
        MyError,
    >)
        requires
            bank_inv(old(self)@),
        ensures
            ({
                let (post, result) = spec_withdraw(old(self)@, signer, worker, amount);
                final(self)@ == post && r == result
            }),
            bank_inv(final(self)@),
    {
        match authorize(self.policy, signer, self.admin, worker) {
            Ok(()) => (),
            Err(e) => {
                return Err(e);
            },
        }
        let cfg = match self.config {
            Some(c) => c,
            None => {
                return Err(MyError::NotFound);
            },
        };
        let worker_data = match self.workers.load(worker) {
            Ok(w) => w,
            Err(e) => {
                return Err(e);
            },
        };
        // The divisor is positive because a zero price was rejected at
        // configuration time; the division is never re-guarded here.
        let withdraw_amount = amount / cfg.token_price;
        if worker_data.withdraw_limit < withdraw_amount {
            return Err(MyError::OutOfWithdrawLimit);
        }
        let token_base = match to_base_units(amount, DAN_DECIMALS) {
            Ok(b) => b,
            Err(e) => {
                return Err(e);
            },
        };
        let currency_base = match to_base_units(withdraw_amount, USDC_DECIMALS) {
            Ok(b) => b,
            Err(e) => {
                return Err(e);
            },
        };
        let worker_dan = self.dan.party_balance(worker);
        if worker_dan < token_base {
            return Err(MyError::TransferFailed);
        }
        let vault_dan = self.dan.vault_balance();
        if token_base > u64::MAX - vault_dan {
            return Err(MyError::ArithmeticOverflow);
        }
        let vault_usdc = self.usdc.vault_balance();
        if vault_usdc < currency_base {
            return Err(MyError::TransferFailed);
        }
        let worker_usdc = self.usdc.party_balance(worker);
        if currency_base > u64::MAX - worker_usdc {
            return Err(MyError::ArithmeticOverflow);
        }
        // Every check has passed: commit both transfers and the
        // allowance debit, signed by the one vault identity.
        let vault_auth = VaultAuthority::derive_from_namespace();
        self.dan.transfer_party_to_vault(&vault_auth, worker, token_base);
        self.usdc.transfer_vault_to_party(&vault_auth, worker, currency_base);
        self.workers.put(
            worker,
            WorkerData { withdraw_limit: worker_data.withdraw_limit - withdraw_amount },
        );
        Ok(())
    }

    /// The configuration ledger, if it has been created.
    pub fn config(&self) -> (r: Option<InitData>)
        ensures
            r == self@.config,
    {
        self.config
    }

    /// The fixed administrator identity.
    pub fn admin(&self) -> (r: u64)
        ensures
            r == self@.admin,
    {
        self.admin
    }

    /// The active authorization policy.
    pub fn policy(&self) -> (r: Policy)
        ensures
            r == self@.policy,
    {
        self.policy
    }

    /// What was handed to the metadata collaborator, if anything yet.
    pub fn metadata(&self) -> (r: &Option<MintMetadata>)
        ensures
            (match r {
                Some(md) => self@.metadata == Some(md@),
                None => self@.metadata is None,
            }),
    {
        &self.metadata
    }

    /// A worker's allowance ledger, failing with `NotFound` if the
    /// worker never registered.
    pub fn worker(&self, worker: u64) -> (r: Result<WorkerData, MyError>)
        ensures
            self@.workers.contains_key(worker) ==> r == Ok::<WorkerData, MyError>(
                self@.workers[worker],
            ),
            !self@.workers.contains_key(worker) ==> r == Err::<WorkerData, MyError>(
                MyError::NotFound,
            ),
    {
        self.workers.load(worker)
    }

    /// A demander's escrow ledger, failing with `NotFound` if the
    /// demander never registered.
    pub fn demander(&self, demander: u64) -> (r: Result<DemanderData, MyError>)
        ensures
            self@.demanders.contains_key(demander) ==> r == Ok::<DemanderData, MyError>(
                self@.demanders[demander],
            ),
            !self@.demanders.contains_key(demander) ==> r == Err::<DemanderData, MyError>(
                MyError::NotFound,
            ),
    {
        self.demanders.load(demander)
    }

    /// A party's work-token holding, in base units.
    pub fn token_balance(&self, owner: u64) -> (r: u64)
        ensures
            r == self@.dan.balance_of(owner),
    {
        self.dan.party_balance(owner)
    }

    /// The vault's work-token holding, in base units.
    pub fn token_vault_balance(&self) -> (r: u64)
        ensures
            r == self@.dan.vault,
    {
        self.dan.vault_balance()
    }

    /// A party's currency holding, in base units.
    pub fn currency_balance(&self, owner: u64) -> (r: u64)
        ensures
            r == self@.usdc.balance_of(owner),
    {
        self.usdc.party_balance(owner)
    }

    /// The vault's currency holding, in base units.
    pub fn currency_vault_balance(&self) -> (r: u64)
        ensures
            r == self@.usdc.vault,
    {
        self.usdc.vault_balance()
    }

    /// Records an external escrow deposit into the vault's currency
    /// account — the inflow that funds withdrawals.
    pub fn deposit_escrow(&mut self, base_amount: u64) -> (r: Result<(), MyError>)
        ensures
            ({
                let (post, result) = spec_deposit_escrow(old(self)@, base_amount);
                final(self)@ == post && r == result
            }),
            bank_inv(old(self)@) ==> bank_inv(final(self)@),
    {
        self.usdc.credit_vault(base_amount)
    }
}

} // verus!
