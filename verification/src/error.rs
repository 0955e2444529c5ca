//! The failures an escrow operation can end in.

use vstd::prelude::*;

verus! {

/// Why an operation was refused. Every refusal is final: the operation has
/// changed nothing when it returns one of these.
#[derive(Clone, Copy, Debug, PartialEq, Eq, Structural)]
pub enum EscrowError {
    /// The caller is not the recorded owner (or policy authority).
    Unauthorized,
    /// The balance cannot cover the amount, counting the reserve floor.
    InsufficientFunds,
    /// The amount is zero.
    InvalidAmount,
    /// The fee is larger than the amount it is taken from.
    InvalidFee,
    /// The supplied pot hash is not the one the vault was created for.
    BadPot,
    /// The mint is not the one linked to the vault.
    BadMint,
    /// The token account is not the one linked to the vault.
    BadVaultAccount,
    /// The relay target is not the allow-listed program.
    InvalidProgram,
    /// The risk state is outside `0..=2`.
    InvalidRiskState,
    /// The four allocation targets do not sum to 10000 basis points.
    InvalidBps,
    /// The yield sub-allocation is larger than the stablecoin target.
    InvalidLuloAllocation,
}

impl EscrowError {
    /// The text of `message`.
    pub open spec fn message_text(self) -> Seq<char> {
        match self {
            EscrowError::Unauthorized => "Unauthorized"@,
            EscrowError::InsufficientFunds => "Insufficient funds"@,
            EscrowError::InvalidAmount => "Invalid amount"@,
            EscrowError::InvalidFee => "Invalid fee"@,
            EscrowError::BadPot => "Bad pot hash"@,
            EscrowError::BadMint => "Bad mint"@,
            EscrowError::BadVaultAccount => "Bad vault account"@,
            EscrowError::InvalidProgram => "Invalid program"@,
            EscrowError::InvalidRiskState => "Invalid risk state"@,
            EscrowError::InvalidBps => "Invalid target bps sum"@,
            EscrowError::InvalidLuloAllocation => "Invalid usdc_in_lulo bps"@,
        }
    }

    /// A short description of the failure, for whoever reads the log.
    pub fn message(&self) -> (s: &'static str)
        ensures
            s@ == self.message_text(),
    {
        match self {
            EscrowError::Unauthorized => "Unauthorized",
            EscrowError::InsufficientFunds => "Insufficient funds",
            EscrowError::InvalidAmount => "Invalid amount",
            EscrowError::InvalidFee => "Invalid fee",
            EscrowError::BadPot => "Bad pot hash",
            EscrowError::BadMint => "Bad mint",
            EscrowError::BadVaultAccount => "Bad vault account",
            EscrowError::InvalidProgram => "Invalid program",
            EscrowError::InvalidRiskState => "Invalid risk state",
            EscrowError::InvalidBps => "Invalid target bps sum",
            EscrowError::InvalidLuloAllocation => "Invalid usdc_in_lulo bps",
        }
    }
}

} // verus!
