use vstd::prelude::*;

verus! {

/// The singleton configuration ledger, created exactly once by the
/// administrator and never mutated afterwards. `token_price` is the
/// number of work tokens minted per currency unit; `withdraw_percent`
/// is the share (0 to 100) of each distributed currency amount that is
/// credited to the worker's withdrawal allowance.
#[derive(Clone, Copy, Debug, PartialEq, Eq, Structural)]
pub struct InitData {
    pub token_price: u64,
    pub withdraw_percent: u64,
}

impl InitData {
    /// The configuration invariant, validated when the configuration is
    /// created: a zero price would make the withdrawal conversion divide
    /// by zero, and the percentage must be a percentage.
    pub open spec fn wf(&self) -> bool {
        self.token_price > 0 && self.withdraw_percent <= 100
    }
}

/// A worker's ledger: the currency-equivalent amount the worker may
/// still redeem. Accrued by distributions, consumed by withdrawals.
#[derive(Clone, Copy, Debug, PartialEq, Eq, Structural)]
pub struct WorkerData {
    pub withdraw_limit: u64,
}

/// A demander's ledger: the escrowed currency balance that funds
/// distributions. Decremented by distributions only; top-up is an
/// external concern.
#[derive(Clone, Copy, Debug, PartialEq, Eq, Structural)]
pub struct DemanderData {
    pub balance: u64,
}

/// Descriptive fields attached to the work-token mint at configuration
/// time. The core records what it handed to the metadata collaborator;
/// it never interprets these fields.
#[derive(Debug)]
pub struct MintMetadata {
    pub uri: String,
    pub name: String,
    pub symbol: String,
}

/// The mathematical content of [`MintMetadata`].
pub ghost struct MintMetadataModel {
    pub uri: Seq<char>,
    pub name: Seq<char>,
    pub symbol: Seq<char>,
}

impl View for MintMetadata {
    type V = MintMetadataModel;

    open spec fn view(&self) -> MintMetadataModel {
        MintMetadataModel { uri: self.uri@, name: self.name@, symbol: self.symbol@ }
    }
}

} // verus!
