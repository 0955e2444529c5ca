//! A fund-custody engine: vaults that hold value for an owner and a pot,
//! owner-gated deposits and withdrawals above a reserve floor, a relay that
//! lets a vault sign for itself towards one allow-listed program, and a store
//! of allocation policies.
//!
//! The engine decides and keeps the books; it moves nothing itself. Where an
//! operation needs another program, it returns the instruction or transfer for
//! the caller to carry out.

pub mod accounts;
pub mod address;
pub mod auth;
pub mod custody;
pub mod error;
pub mod instruction;
pub mod laws;
pub mod policy;
pub mod pubkey;
pub mod relay;
pub mod state;
pub mod token;

pub use crate::accounts::{
    Deposit, DepositUsdc, InitPotVault, LuloExecute, Signer, TokenAccount, UpdatePolicy,
    VaultAccount, Withdraw, WithdrawUsdc, WithdrawWithFee,
};
pub use crate::address::{
    derive_policy_address, derive_vault_address, find_policy_address, find_vault_address,
    vault_address_with_bump, verify_vault_address, VaultSigningSeeds, POLICY_SEED, VAULT_SEED,
};
pub use crate::auth::authorize;
pub use crate::custody::{
    check_withdraw, check_withdraw_with_fee, deposit, init_pot_vault, withdraw, withdraw_with_fee,
};
pub use crate::error::EscrowError;
pub use crate::instruction::{AccountMeta, Instruction};
pub use crate::policy::{check_update_policy, update_policy};
pub use crate::pubkey::{
    lulo_program_id, program_id, pubkey_from_base58, Pubkey, LULO_PROGRAM_ID, PROGRAM_ID,
};
pub use crate::relay::{elevate_signers, lulo_execute, relay_instruction, RelayCall};
pub use crate::state::{PodPolicy, Vault, MAX_RISK_STATE, TOTAL_BPS};
pub use crate::token::{deposit_usdc, withdraw_usdc, TokenTransfer};
