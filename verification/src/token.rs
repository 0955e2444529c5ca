//! Custody of tokens: the owner pays tokens into the vault's token account,
//! and the vault, signing for itself, pays them back.

use crate::accounts::{DepositUsdc, WithdrawUsdc};
use crate::address::{vault_signer_seeds, VaultSigningSeeds};
use crate::auth::{authorization, authorize};
use crate::error::EscrowError;
use crate::pubkey::Pubkey;
use vstd::prelude::*;

verus! {

/// A transfer of tokens for the token program to carry out.
#[derive(Debug)]
pub struct TokenTransfer {
    /// The token account that pays.
    pub from: Pubkey,
    /// The token account that is paid.
    pub to: Pubkey,
    /// The account whose authority moves the tokens.
    pub authority: Pubkey,
    /// How many tokens move.
    pub amount: u64,
    /// The seeds with which the vault signs, where the vault is the
    /// authority; `None` where the caller's own signature is.
    pub signer_seeds: Option<VaultSigningSeeds>,
}

/// A transfer of tokens as a mathematical value.
pub struct TokenTransferView {
    pub from: Pubkey,
    pub to: Pubkey,
    pub authority: Pubkey,
    pub amount: u64,
    pub signer_seeds: Option<Seq<Seq<u8>>>,
}

impl View for TokenTransfer {
    type V = TokenTransferView;

    open spec fn view(&self) -> TokenTransferView {
        TokenTransferView {
            from: self.from,
            to: self.to,
            authority: self.authority,
            amount: self.amount,
            signer_seeds: match self.signer_seeds {
                Some(seeds) => Some(seeds@),
                None => None,
            },
        }
    }
}

/// The view of the result of a token operation.
pub open spec fn transfer_result_view(r: Result<TokenTransfer, EscrowError>) -> Result<
    TokenTransferView,
    EscrowError,
> {
    match r {
        Ok(transfer) => Ok(transfer@),
        Err(e) => Err(e),
    }
}

/// The outcome of a token deposit: `InvalidAmount` for nothing, then the
/// authorization check, then `BadMint` for a mint other than the vault's,
/// then `BadVaultAccount` for a token account other than the vault's;
/// otherwise a transfer from the caller's token account to the vault's, on
/// the caller's own authority.
pub open spec fn deposit_usdc_outcome(ctx: DepositUsdc, pot_hash: [u8; 32], amount: u64) -> Result<
    TokenTransferView,
    EscrowError,
> {
    if amount == 0 {
        Err(EscrowError::InvalidAmount)
    } else {
        match authorization(ctx.vault.data, ctx.owner.key, pot_hash) {
            Err(e) => Err(e),
            Ok(()) => if ctx.vault.data.usdc_mint != ctx.usdc_mint {
                Err(EscrowError::BadMint)
            } else if ctx.vault.data.usdc_vault != ctx.vault_usdc.key {
                Err(EscrowError::BadVaultAccount)
            } else {
                Ok(
                    TokenTransferView {
                        from: ctx.user_usdc.key,
                        to: ctx.vault_usdc.key,
                        authority: ctx.owner.key,
                        amount,
                        signer_seeds: None,
                    },
                )
            },
        }
    }
}

/// Pays `amount` tokens of the owner's into the vault. The engine decides;
/// the token program moves the tokens, as the returned transfer says.
pub fn deposit_usdc(ctx: &DepositUsdc, pot_hash: [u8; 32], amount: u64) -> (r: Result<
    TokenTransfer,
    EscrowError,
>)
    ensures
        transfer_result_view(r) == deposit_usdc_outcome(*ctx, pot_hash, amount),
{
    if amount == 0 {
        return Err(EscrowError::InvalidAmount);
    }
    match authorize(&ctx.vault.data, &ctx.owner.key, &pot_hash) {
        Err(e) => {
            return Err(e);
        },
        Ok(()) => {},
    }
    if ctx.vault.data.usdc_mint != ctx.usdc_mint {
        return Err(EscrowError::BadMint);
    }
    if ctx.vault.data.usdc_vault != ctx.vault_usdc.key {
        return Err(EscrowError::BadVaultAccount);
    }
    Ok(
        TokenTransfer {
            from: ctx.user_usdc.key,
            to: ctx.vault_usdc.key,
            authority: ctx.owner.key,
            amount,
            signer_seeds: None,
        },
    )
}

/// The outcome of a token withdrawal: the checks of a deposit, then
/// `InsufficientFunds` for more tokens than the vault's token account holds;
/// otherwise a transfer from the vault's token account to the caller's, on
/// the authority of the vault, which signs with its own seeds.
pub open spec fn withdraw_usdc_outcome(ctx: WithdrawUsdc, pot_hash: [u8; 32], amount: u64) -> Result<
    TokenTransferView,
    EscrowError,
> {
    if amount == 0 {
        Err(EscrowError::InvalidAmount)
    } else {
        match authorization(ctx.vault.data, ctx.owner.key, pot_hash) {
            Err(e) => Err(e),
            Ok(()) => if ctx.vault.data.usdc_mint != ctx.usdc_mint {
                Err(EscrowError::BadMint)
            } else if ctx.vault.data.usdc_vault != ctx.vault_usdc.key {
                Err(EscrowError::BadVaultAccount)
            } else if ctx.vault_usdc.amount < amount {
                Err(EscrowError::InsufficientFunds)
            } else {
                Ok(
                    TokenTransferView {
                        from: ctx.vault_usdc.key,
                        to: ctx.user_usdc.key,
                        authority: ctx.vault.key,
                        amount,
                        signer_seeds: Some(
                            vault_signer_seeds(
                                ctx.owner.key,
                                ctx.vault.data.pot_hash,
                                ctx.vault.data.bump,
                            ),
                        ),
                    },
                )
            },
        }
    }
}

/// Pays `amount` tokens out of the vault to its owner. The engine decides;
/// the token program moves the tokens, as the returned transfer says, and the
/// vault signs with the returned seeds.
pub fn withdraw_usdc(ctx: &WithdrawUsdc, pot_hash: [u8; 32], amount: u64) -> (r: Result<
    TokenTransfer,
    EscrowError,
>)
    ensures
        transfer_result_view(r) == withdraw_usdc_outcome(*ctx, pot_hash, amount),
{
    if amount == 0 {
        return Err(EscrowError::InvalidAmount);
    }
    match authorize(&ctx.vault.data, &ctx.owner.key, &pot_hash) {
        Err(e) => {
            return Err(e);
        },
        Ok(()) => {},
    }
    if ctx.vault.data.usdc_mint != ctx.usdc_mint {
        return Err(EscrowError::BadMint);
    }
    if ctx.vault.data.usdc_vault != ctx.vault_usdc.key {
        return Err(EscrowError::BadVaultAccount);
    }
    if ctx.vault_usdc.amount < amount {
        return Err(EscrowError::InsufficientFunds);
    }
    let signer_seeds = VaultSigningSeeds::new(
        ctx.owner.key,
        ctx.vault.data.pot_hash,
        ctx.vault.data.bump,
    );
    Ok(
        TokenTransfer {
            from: ctx.vault_usdc.key,
            to: ctx.user_usdc.key,
            authority: ctx.vault.key,
            amount,
            signer_seeds: Some(signer_seeds),
        },
    )
}

} // verus!
