use vstd::prelude::*;

use crate::error::VaultErrorCode;

verus! {

/// Durable ledger of the vault: the total number of receipt shares ever
/// minted minus the shares burned.
///
/// It is mutated only by the deposit accounting (increment) and the withdraw
/// commit (decrement); every other component only reads it.
pub struct VaultState {
    pub total_amount_minted: u64,
}

impl VaultState {
    /// A fresh vault has issued no shares.
    pub fn new() -> (s: VaultState)
        ensures
            s.total_amount_minted == 0,
    {
        VaultState { total_amount_minted: 0 }
    }
}

impl Default for VaultState {
    fn default() -> (s: VaultState)
        ensures
            s.total_amount_minted == 0,
    {
        VaultState::new()
    }
}

/// The vault's open directional exposure in one market, derived on demand
/// from the venue's signed base-asset amount: positive is `Long`, negative is
/// `Short`, absent or zero is `Flat` (no open position). Never persisted.
#[derive(Clone, Copy, Debug, PartialEq, Eq, Structural)]
pub enum Position {
    Long,
    Short,
    Flat,
}

} // verus!
