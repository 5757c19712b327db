use vstd::prelude::*;

verus! {

/// Why an instruction was rejected. A rejected instruction has no effect.
#[derive(Debug, Clone, Copy, PartialEq, Eq, Structural)]
pub enum CrowdsaleError {
    /// The cost per unit is zero.
    InvalidCost,
    /// The vault holds units of another type than the one named.
    MintMismatch,
    /// The sale is closed to purchases.
    CrowdsaleClosed,
    /// The purchase is for zero units.
    InvalidAmount,
    /// The vault holds fewer units than asked for.
    InsufficientTokens,
    /// The payment does not match the amount times the cost.
    IncorrectPayment,
    /// The amount times the cost does not fit in a 64-bit balance.
    Overflow,
    /// A party holds too little currency for the transfer.
    InsufficientFunds,
    /// The caller is not the sale's owner.
    Unauthorized,
    /// The sale is still open.
    CrowdsaleNotClosed,
    /// The sale's account holds nothing above its reserve.
    NoFundsToWithdraw,
}

} // verus!
