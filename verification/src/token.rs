use vstd::prelude::*;

use crate::auth::VaultAuthority;
use crate::errors::MyError;
use crate::store::LedgerStore;

verus! {

/// The mathematical content of a [`TokenLedger`]: the vault's own
/// holding and each party's holding, all in base units. A party with no
/// account yet holds zero — the account-resolution collaborator creates
/// holding accounts on demand.
#[verifier::ext_equal]
pub ghost struct TokenLedgerModel {
    pub vault: u64,
    pub parties: Map<u64, u64>,
}

impl TokenLedgerModel {
    /// A party's holding, zero if no account exists yet.
    pub open spec fn balance_of(&self, owner: u64) -> u64 {
        if self.parties.contains_key(owner) {
            self.parties[owner]
        } else {
            0
        }
    }
}

/// The holding accounts of one asset (the work token, or the escrow
/// currency): one autonomous vault account owned by the program, and one
/// account per party. All balances are base units. Every movement that
/// the program itself signs — minting, and anything touching the vault —
/// demands a valid [`VaultAuthority`], so value moves only along the
/// authority gate's sanctioned paths.
pub struct TokenLedger {
    vault: u64,
    parties: LedgerStore<u64>,
}

impl View for TokenLedger {
    type V = TokenLedgerModel;

    closed spec fn view(&self) -> TokenLedgerModel {
        TokenLedgerModel { vault: self.vault, parties: self.parties@ }
    }
}

impl TokenLedger {
    /// A ledger with no holdings at all.
    pub fn new() -> (t: Self)
        ensures
            t@ == (TokenLedgerModel { vault: 0, parties: Map::<u64, u64>::empty() }),
    {
        TokenLedger { vault: 0, parties: LedgerStore::new() }
    }

    /// The vault's own holding.
    pub fn vault_balance(&self) -> (r: u64)
        ensures
            r == self@.vault,
    {
        self.vault
    }

    /// A party's holding, zero if no account exists yet.
    pub fn party_balance(&self, owner: u64) -> (r: u64)
        ensures
            r == self@.balance_of(owner),
    {
        match self.parties.load(owner) {
            Ok(balance) => balance,
            Err(_) => 0,
        }
    }

    /// Mints `base_amount` new base units into `owner`'s account, signed
    /// by the vault identity that holds the mint authority.
    pub fn mint_to_party(&mut self, auth: &VaultAuthority, owner: u64, base_amount: u64)
        requires
            auth.wf(),
            old(self)@.balance_of(owner) + base_amount <= u64::MAX,
        ensures
            final(self)@ == (TokenLedgerModel {
                vault: old(self)@.vault,
                parties: old(self)@.parties.insert(
                    owner,
                    (old(self)@.balance_of(owner) + base_amount) as u64,
                ),
            }),
    {
        let balance = self.party_balance(owner);
        self.parties.put(owner, balance + base_amount);
    }

    /// Moves `base_amount` base units from `owner`'s account into the
    /// vault, signed by the vault identity.
    pub fn transfer_party_to_vault(&mut self, auth: &VaultAuthority, owner: u64, base_amount: u64)
        requires
            auth.wf(),
            old(self)@.balance_of(owner) >= base_amount,
            old(self)@.vault + base_amount <= u64::MAX,
        ensures
            final(self)@ == (TokenLedgerModel {
                vault: (old(self)@.vault + base_amount) as u64,
                parties: old(self)@.parties.insert(
                    owner,
                    (old(self)@.balance_of(owner) - base_amount) as u64,
                ),
            }),
    {
        let balance = self.party_balance(owner);
        self.parties.put(owner, balance - base_amount);
        self.vault = self.vault + base_amount;
    }

    /// Moves `base_amount` base units out of the vault into `owner`'s
    /// account, signed by the same vault identity: vault-outbound value
    /// never needs an administrator's key.
    pub fn transfer_vault_to_party(&mut self, auth: &VaultAuthority, owner: u64, base_amount: u64)
        requires
            auth.wf(),
            old(self)@.vault >= base_amount,
            old(self)@.balance_of(owner) + base_amount <= u64::MAX,
        ensures
            final(self)@ == (TokenLedgerModel {
                vault: (old(self)@.vault - base_amount) as u64,
                parties: old(self)@.parties.insert(
                    owner,
                    (old(self)@.balance_of(owner) + base_amount) as u64,
                ),
            }),
    {
        let balance = self.party_balance(owner);
        self.parties.put(owner, balance + base_amount);
        self.vault = self.vault - base_amount;
    }

    /// Records an external deposit into the vault's account — the escrow
    /// inflow that funds withdrawals. The depositor signs outside this
    /// core, so no vault authority is involved.
    pub fn credit_vault(&mut self, base_amount: u64) -> (r: Result<(), MyError>)
        ensures
            old(self)@.vault + base_amount <= u64::MAX ==> r == Ok::<(), MyError>(())
                && final(self)@ == (TokenLedgerModel {
                vault: (old(self)@.vault + base_amount) as u64,
                ..old(self)@
            }),
            old(self)@.vault + base_amount > u64::MAX ==> r == Err::<(), MyError>(
                MyError::ArithmeticOverflow,
            ) && final(self)@ == old(self)@,
    {
        match self.vault.checked_add(base_amount) {
            Some(v) => {
                self.vault = v;
                Ok(())
            },
            None => Err(MyError::ArithmeticOverflow),
        }
    }
}

} // verus!
