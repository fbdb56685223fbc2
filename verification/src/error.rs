use vstd::prelude::*;

verus! {

/// Error codes surfaced by the vault's operations.
///
/// `NotEnoughFunds` and `WithdrawAmountTooSmall` are validation errors a
/// depositor can recover from; `MathError` marks an overflow or underflow in
/// share or collateral accounting, which aborts the operation rather than
/// saturate or truncate.
#[derive(Clone, Copy, Debug, PartialEq, Eq, Structural)]
pub enum VaultErrorCode {
    NotEnoughFunds,
    WithdrawAmountTooSmall,
    MathError,
}

} // verus!
