//! The accounts that each operation is handed: for every account the plain
//! values that the operation reads or changes.

use crate::pubkey::Pubkey;
use crate::state::{PodPolicy, Vault};
use vstd::prelude::*;

verus! {

/// The account of the caller, who has signed the transaction.
#[derive(Clone, Copy, Debug, PartialEq, Eq)]
pub struct Signer {
    /// The caller's address.
    pub key: Pubkey,
    /// The caller's balance of native currency.
    pub lamports: u64,
}

/// An account that holds a vault record.
#[derive(Clone, Copy, Debug, PartialEq, Eq)]
pub struct VaultAccount {
    /// The account's address.
    pub key: Pubkey,
    /// The account's balance of native currency.
    pub lamports: u64,
    /// The record stored in the account.
    pub data: Vault,
}

/// An account that holds tokens of one mint.
#[derive(Clone, Copy, Debug, PartialEq, Eq)]
pub struct TokenAccount {
    /// The account's address.
    pub key: Pubkey,
    /// The number of tokens held.
    pub amount: u64,
}

/// The accounts of `init_pot_vault`.
#[derive(Clone, Copy, Debug, PartialEq, Eq)]
pub struct InitPotVault {
    pub owner: Signer,
    /// The account that the new record is written to.
    pub vault: VaultAccount,
    /// The address of the mint of the token the vault may hold.
    pub usdc_mint: Pubkey,
    /// The token account of the vault.
    pub vault_usdc: TokenAccount,
    /// The bump that the derivation of the vault's address ended on.
    pub vault_bump: u8,
}

/// The accounts of `deposit`.
#[derive(Clone, Copy, Debug, PartialEq, Eq)]
pub struct Deposit {
    pub owner: Signer,
    pub vault: VaultAccount,
}

/// The accounts of `withdraw`.
#[derive(Clone, Copy, Debug, PartialEq, Eq)]
pub struct Withdraw {
    pub owner: Signer,
    pub vault: VaultAccount,
}

/// The accounts of `withdraw_with_fee`.
#[derive(Clone, Copy, Debug, PartialEq, Eq)]
pub struct WithdrawWithFee {
    pub owner: Signer,
    pub vault: VaultAccount,
    /// The vault that the fee is paid to.
    pub admin_vault: VaultAccount,
}

/// The accounts of `deposit_usdc`.
#[derive(Clone, Copy, Debug, PartialEq, Eq)]
pub struct DepositUsdc {
    pub owner: Signer,
    pub vault: VaultAccount,
    /// The address of the mint.
    pub usdc_mint: Pubkey,
    /// The caller's token account.
    pub user_usdc: TokenAccount,
    /// The vault's token account.
    pub vault_usdc: TokenAccount,
}

/// The accounts of `withdraw_usdc`.
#[derive(Clone, Copy, Debug, PartialEq, Eq)]
pub struct WithdrawUsdc {
    pub owner: Signer,
    pub vault: VaultAccount,
    /// The address of the mint.
    pub usdc_mint: Pubkey,
    /// The caller's token account.
    pub user_usdc: TokenAccount,
    /// The vault's token account.
    pub vault_usdc: TokenAccount,
}

/// The accounts of `lulo_execute`.
#[derive(Clone, Copy, Debug, PartialEq, Eq)]
pub struct LuloExecute {
    pub owner: Signer,
    pub vault: VaultAccount,
    /// The address of the program that the instruction is relayed to.
    pub lulo_program: Pubkey,
}

/// The accounts of `update_policy`.
#[derive(Clone, Copy, Debug, PartialEq, Eq)]
pub struct UpdatePolicy {
    /// The caller.
    pub authority: Signer,
    /// The policy record that is written.
    pub pod_policy: PodPolicy,
    /// The bump that the derivation of the policy's address ended on.
    pub pod_policy_bump: u8,
}

} // verus!
