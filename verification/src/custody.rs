//! Custody of native currency: creating a vault, paying into it, and paying
//! out of it without ever touching the reserve that keeps its account alive.

use crate::accounts::{Deposit, InitPotVault, Signer, VaultAccount, Withdraw, WithdrawWithFee};
use crate::auth::{authorization, authorize};
use crate::error::EscrowError;
use crate::instruction::{is_system_transfer, system_transfer, Instruction};
use crate::state::Vault;
use vstd::prelude::*;

verus! {

/// The record of a newly created vault: owned by the caller, bound to the
/// given pot, and linked to the mint and the token account it was created
/// with.
pub open spec fn created_vault(ctx: InitPotVault, pot_hash: [u8; 32]) -> Vault {
    Vault {
        owner: ctx.owner.key,
        pot_hash,
        bump: ctx.vault_bump,
        usdc_mint: ctx.usdc_mint,
        usdc_vault: ctx.vault_usdc.key,
    }
}

/// Creates the vault of the caller and the pot `pot_hash`: writes its record.
/// Always succeeds; that the account is new, and stands at the address derived
/// for the caller and the pot, is for the ledger to see to before the call.
pub fn init_pot_vault(ctx: &mut InitPotVault, pot_hash: [u8; 32]) -> (r: Result<(), EscrowError>)
    ensures
        r is Ok,
        *final(ctx) == (InitPotVault {
            vault: VaultAccount { data: created_vault(*old(ctx), pot_hash), ..old(ctx).vault },
            ..*old(ctx)
        }),
{
    ctx.vault.data.owner = ctx.owner.key;
    ctx.vault.data.pot_hash = pot_hash;
    ctx.vault.data.bump = ctx.vault_bump;
    ctx.vault.data.usdc_mint = ctx.usdc_mint;
    ctx.vault.data.usdc_vault = ctx.vault_usdc.key;
    Ok(())
}

/// The verdict on a deposit: `InvalidAmount` for nothing, then the
/// authorization check.
pub open spec fn deposit_check(ctx: Deposit, pot_hash: [u8; 32], lamports: u64) -> Result<
    (),
    EscrowError,
> {
    if lamports == 0 {
        Err(EscrowError::InvalidAmount)
    } else {
        authorization(ctx.vault.data, ctx.owner.key, pot_hash)
    }
}

/// Pays `lamports` of the owner's into the vault. The engine decides; the
/// money is moved by the system program, with the instruction that a
/// successful call returns: a transfer of exactly that amount from the owner,
/// who signs, to the vault. No reserve is checked, as a deposit only adds.
pub fn deposit(ctx: &Deposit, pot_hash: [u8; 32], lamports: u64) -> (r: Result<
    Instruction,
    EscrowError,
>)
    ensures
        match r {
            Ok(ix) => {
                &&& deposit_check(*ctx, pot_hash, lamports) is Ok
                &&& is_system_transfer(ix@, ctx.owner.key, ctx.vault.key, lamports)
            },
            Err(e) => deposit_check(*ctx, pot_hash, lamports) == Err::<(), EscrowError>(e),
        },
{
    if lamports == 0 {
        return Err(EscrowError::InvalidAmount);
    }
    match authorize(&ctx.vault.data, &ctx.owner.key, &pot_hash) {
        Err(e) => Err(e),
        Ok(()) => Ok(system_transfer(&ctx.owner.key, &ctx.vault.key, lamports)),
    }
}

/// What a vault can pay out: its balance less the reserve floor. Negative for
/// a vault below the floor, which can pay nothing, not even an amount of zero.
pub open spec fn available(balance: u64, min_balance: u64) -> int {
    balance - min_balance
}

/// The verdict on a withdrawal of `lamports` from a vault whose reserve floor
/// is `min_balance`: the authorization check, then `InsufficientFunds` for more
/// than the vault can pay out.
pub open spec fn withdraw_check(
    ctx: Withdraw,
    pot_hash: [u8; 32],
    lamports: u64,
    min_balance: u64,
) -> Result<(), EscrowError> {
    match authorization(ctx.vault.data, ctx.owner.key, pot_hash) {
        Err(e) => Err(e),
        Ok(()) => if available(ctx.vault.lamports, min_balance) < lamports {
            Err(EscrowError::InsufficientFunds)
        } else {
            Ok(())
        },
    }
}

/// What a withdrawal takes out of the vault and hands to the owner: the
/// amount where it is accepted, nothing where it is refused.
pub open spec fn withdraw_payout(
    ctx: Withdraw,
    pot_hash: [u8; 32],
    lamports: u64,
    min_balance: u64,
) -> u64 {
    if withdraw_check(ctx, pot_hash, lamports, min_balance) is Ok {
        lamports
    } else {
        0
    }
}

/// Judges a withdrawal without making it.
pub fn check_withdraw(
    ctx: &Withdraw,
    pot_hash: [u8; 32],
    lamports: u64,
    min_balance: u64,
) -> (r: Result<(), EscrowError>)
    ensures
        r == withdraw_check(*ctx, pot_hash, lamports, min_balance),
{
    match authorize(&ctx.vault.data, &ctx.owner.key, &pot_hash) {
        Err(e) => {
            return Err(e);
        },
        Ok(()) => {},
    }
    let current = ctx.vault.lamports;
    if current < min_balance || current - min_balance < lamports {
        return Err(EscrowError::InsufficientFunds);
    }
    Ok(())
}

/// Pays `lamports` out of the vault to its owner. `min_balance` is the reserve
/// floor: the least balance that keeps an account of `Vault::SPACE` bytes
/// alive. A vault below the floor pays nothing, and no payment takes a vault
/// below it. Either both balances change or neither does.
///
/// The owner's balance must have room for the payment.
pub fn withdraw(
    ctx: &mut Withdraw,
    pot_hash: [u8; 32],
    lamports: u64,
    min_balance: u64,
) -> (r: Result<(), EscrowError>)
    requires
        withdraw_check(*old(ctx), pot_hash, lamports, min_balance) is Ok
            ==> old(ctx).owner.lamports + lamports <= u64::MAX,
    ensures
        r == withdraw_check(*old(ctx), pot_hash, lamports, min_balance),
        r is Err ==> *final(ctx) == *old(ctx),
        r is Ok ==> *final(ctx) == (Withdraw {
            owner: Signer {
                lamports: (old(ctx).owner.lamports + lamports) as u64,
                ..old(ctx).owner
            },
            vault: VaultAccount {
                lamports: (old(ctx).vault.lamports - lamports) as u64,
                ..old(ctx).vault
            },
        }),
        final(ctx).vault.lamports == old(ctx).vault.lamports - withdraw_payout(
            *old(ctx),
            pot_hash,
            lamports,
            min_balance,
        ),
        final(ctx).owner.lamports == old(ctx).owner.lamports + withdraw_payout(
            *old(ctx),
            pot_hash,
            lamports,
            min_balance,
        ),
        r is Ok ==> final(ctx).vault.lamports >= min_balance,
        old(ctx).vault.lamports >= min_balance ==> final(ctx).vault.lamports >= min_balance,
        final(ctx).vault.lamports <= old(ctx).vault.lamports,
        final(ctx).owner.lamports + final(ctx).vault.lamports
            == old(ctx).owner.lamports + old(ctx).vault.lamports,
{
    match check_withdraw(ctx, pot_hash, lamports, min_balance) {
        Err(e) => {
            return Err(e);
        },
        Ok(()) => {},
    }
    ctx.vault.lamports = ctx.vault.lamports - lamports;
    ctx.owner.lamports = ctx.owner.lamports + lamports;
    Ok(())
}

/// The verdict on a withdrawal of `lamports` of which `fee_lamports` go to the
/// admin vault: `InvalidAmount` for nothing, `InvalidFee` for a fee larger than
/// the amount, then the authorization check, then `InsufficientFunds` for more
/// than the vault can pay out.
pub open spec fn withdraw_with_fee_check(
    ctx: WithdrawWithFee,
    pot_hash: [u8; 32],
    lamports: u64,
    fee_lamports: u64,
    min_balance: u64,
) -> Result<(), EscrowError> {
    if lamports == 0 {
        Err(EscrowError::InvalidAmount)
    } else if fee_lamports > lamports {
        Err(EscrowError::InvalidFee)
    } else {
        match authorization(ctx.vault.data, ctx.owner.key, pot_hash) {
            Err(e) => Err(e),
            Ok(()) => if available(ctx.vault.lamports, min_balance) < lamports {
                Err(EscrowError::InsufficientFunds)
            } else {
                Ok(())
            },
        }
    }
}

/// What a withdrawal with a fee moves: what the vault pays, and the parts of
/// it that the owner and the admin vault receive.
pub struct FeeSplit {
    pub vault_debit: u64,
    pub owner_credit: u64,
    pub admin_credit: u64,
}

/// What a withdrawal with a fee moves: where it is accepted, the vault pays
/// the amount, the admin vault receives the fee and the owner the rest; where
/// it is refused, nothing moves.
pub open spec fn fee_split(
    ctx: WithdrawWithFee,
    pot_hash: [u8; 32],
    lamports: u64,
    fee_lamports: u64,
    min_balance: u64,
) -> FeeSplit {
    if withdraw_with_fee_check(ctx, pot_hash, lamports, fee_lamports, min_balance) is Ok {
        FeeSplit {
            vault_debit: lamports,
            owner_credit: (lamports - fee_lamports) as u64,
            admin_credit: fee_lamports,
        }
    } else {
        FeeSplit { vault_debit: 0, owner_credit: 0, admin_credit: 0 }
    }
}

/// Judges a withdrawal with a fee without making it.
pub fn check_withdraw_with_fee(
    ctx: &WithdrawWithFee,
    pot_hash: [u8; 32],
    lamports: u64,
    fee_lamports: u64,
    min_balance: u64,
) -> (r: Result<(), EscrowError>)
    ensures
        r == withdraw_with_fee_check(*ctx, pot_hash, lamports, fee_lamports, min_balance),
{
    if lamports == 0 {
        return Err(EscrowError::InvalidAmount);
    }
    if fee_lamports > lamports {
        return Err(EscrowError::InvalidFee);
    }
    match authorize(&ctx.vault.data, &ctx.owner.key, &pot_hash) {
        Err(e) => {
            return Err(e);
        },
        Ok(()) => {},
    }
    let current = ctx.vault.lamports;
    if current < min_balance || current - min_balance < lamports {
        return Err(EscrowError::InsufficientFunds);
    }
    Ok(())
}

/// Pays `lamports` out of the vault: `fee_lamports` of it to the admin vault
/// and the rest to the owner. `min_balance` is the reserve floor, as for
/// `withdraw`. All three balances change or none does; what the owner and the
/// admin vault receive adds up to exactly what the vault pays.
///
/// The owner's and the admin vault's balances must have room for their parts.
pub fn withdraw_with_fee(
    ctx: &mut WithdrawWithFee,
    pot_hash: [u8; 32],
    lamports: u64,
    fee_lamports: u64,
    min_balance: u64,
) -> (r: Result<(), EscrowError>)
    requires
        withdraw_with_fee_check(*old(ctx), pot_hash, lamports, fee_lamports, min_balance) is Ok ==> {
            &&& old(ctx).owner.lamports + (lamports - fee_lamports) <= u64::MAX
            &&& old(ctx).admin_vault.lamports + fee_lamports <= u64::MAX
        },
    ensures
        r == withdraw_with_fee_check(*old(ctx), pot_hash, lamports, fee_lamports, min_balance),
        r is Err ==> *final(ctx) == *old(ctx),
        r is Ok ==> *final(ctx) == (WithdrawWithFee {
            owner: Signer {
                lamports: (old(ctx).owner.lamports + (lamports - fee_lamports)) as u64,
                ..old(ctx).owner
            },
            vault: VaultAccount {
                lamports: (old(ctx).vault.lamports - lamports) as u64,
                ..old(ctx).vault
            },
            admin_vault: VaultAccount {
                lamports: (old(ctx).admin_vault.lamports + fee_lamports) as u64,
                ..old(ctx).admin_vault
            },
        }),
        ({
            let split = fee_split(*old(ctx), pot_hash, lamports, fee_lamports, min_balance);
            &&& final(ctx).vault.lamports == old(ctx).vault.lamports - split.vault_debit
            &&& final(ctx).owner.lamports == old(ctx).owner.lamports + split.owner_credit
            &&& final(ctx).admin_vault.lamports == old(ctx).admin_vault.lamports
                + split.admin_credit
        }),
        r is Ok ==> final(ctx).vault.lamports >= min_balance,
        old(ctx).vault.lamports >= min_balance ==> final(ctx).vault.lamports >= min_balance,
        final(ctx).vault.lamports <= old(ctx).vault.lamports,
        r is Ok ==> fee_lamports <= lamports,
        r is Ok ==> (final(ctx).owner.lamports - old(ctx).owner.lamports)
            + (final(ctx).admin_vault.lamports - old(ctx).admin_vault.lamports) == lamports,
        r is Ok ==> old(ctx).vault.lamports - final(ctx).vault.lamports == lamports,
        final(ctx).owner.lamports + final(ctx).vault.lamports + final(ctx).admin_vault.lamports
            == old(ctx).owner.lamports + old(ctx).vault.lamports + old(ctx).admin_vault.lamports,
{
    match check_withdraw_with_fee(ctx, pot_hash, lamports, fee_lamports, min_balance) {
        Err(e) => {
            return Err(e);
        },
        Ok(()) => {},
    }
    let net: u64 = lamports - fee_lamports;
    ctx.vault.lamports = ctx.vault.lamports - lamports;
    ctx.owner.lamports = ctx.owner.lamports + net;
    ctx.admin_vault.lamports = ctx.admin_vault.lamports + fee_lamports;
    Ok(())
}

} // verus!
