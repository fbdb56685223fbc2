use vstd::prelude::*;

use crate::error::VaultErrorCode;
use crate::state::VaultState;

verus! {

/// Deposit accounting: shares are minted 1:1 against the collateral put in
/// (a deliberate simplification — deposits are not priced by net asset
/// value), and the ledger grows by exactly the deposit.
///
/// Returns the mint amount, which always equals `deposit_amount`; a zero
/// deposit is a harmless no-op, not an error. Overflow of the share count
/// aborts with `MathError` and leaves the ledger unchanged.
pub fn deposit(vault_state: &mut VaultState, deposit_amount: u64) -> (r: Result<
    u64,
    VaultErrorCode,
>)
    ensures
        old(vault_state).total_amount_minted + deposit_amount <= u64::MAX ==> {
            &&& r == Ok::<u64, VaultErrorCode>(deposit_amount)
            &&& final(vault_state).total_amount_minted == old(vault_state).total_amount_minted
                + deposit_amount
        },
        old(vault_state).total_amount_minted + deposit_amount > u64::MAX ==> {
            &&& r == Err::<u64, VaultErrorCode>(VaultErrorCode::MathError)
            &&& final(vault_state).total_amount_minted == old(vault_state).total_amount_minted
        },
{
    let mint_amount = deposit_amount;
    match vault_state.total_amount_minted.checked_add(mint_amount) {
        Some(total) => {
            vault_state.total_amount_minted = total;
            Ok(mint_amount)
        },
        None => Err(VaultErrorCode::MathError),
    }
}

} // verus!
