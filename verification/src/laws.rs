//! What holds of the engine as a whole, across its operations.

use crate::accounts::{Deposit, DepositUsdc, LuloExecute, Withdraw, WithdrawUsdc, WithdrawWithFee};
use crate::auth::authorization;
use crate::custody::{
    deposit_check, fee_split, withdraw_check, withdraw_payout, withdraw_with_fee_check,
};
use crate::error::EscrowError;
use crate::instruction::AccountMeta;
use crate::pubkey::Pubkey;
use crate::relay::relay_outcome;
use crate::state::Vault;
use crate::token::{deposit_usdc_outcome, withdraw_usdc_outcome};
use vstd::prelude::*;

verus! {

/// The ownership check does not depend on which side of the comparison the
/// caller stands, and it has a verdict for every vault, caller and pot hash:
/// anyone but the recorded owner is `Unauthorized`.
pub proof fn lemma_ownership_check_total(vault: Vault, caller: Pubkey, pot_hash: [u8; 32])
    ensures
        (vault.owner == caller) == (caller == vault.owner),
        vault.owner != caller ==> authorization(vault, caller, pot_hash) == Err::<(), EscrowError>(
            EscrowError::Unauthorized,
        ),
        vault.owner == caller ==> authorization(vault, caller, pot_hash) != Err::<(), EscrowError>(
            EscrowError::Unauthorized,
        ),
{
}

/// No operation on a vault succeeds for a caller who is not its recorded
/// owner, whatever else the caller supplies. Where the amounts are in order,
/// the refusal is `Unauthorized`.
pub proof fn lemma_only_owner_operates(
    deposit: Deposit,
    withdraw: Withdraw,
    withdraw_with_fee: WithdrawWithFee,
    deposit_usdc: DepositUsdc,
    withdraw_usdc: WithdrawUsdc,
    lulo_execute: LuloExecute,
    remaining_accounts: Seq<AccountMeta>,
    ix_data: Seq<u8>,
    allowed: Option<Seq<u8>>,
    pot_hash: [u8; 32],
    amount: u64,
    fee: u64,
    min_balance: u64,
)
    ensures
        deposit.owner.key != deposit.vault.data.owner ==> {
            &&& deposit_check(deposit, pot_hash, amount) is Err
            &&& amount > 0 ==> deposit_check(deposit, pot_hash, amount) == Err::<(), EscrowError>(
                EscrowError::Unauthorized,
            )
        },
        withdraw.owner.key != withdraw.vault.data.owner ==> withdraw_check(
            withdraw,
            pot_hash,
            amount,
            min_balance,
        ) == Err::<(), EscrowError>(EscrowError::Unauthorized),
        withdraw_with_fee.owner.key != withdraw_with_fee.vault.data.owner ==> {
            &&& withdraw_with_fee_check(withdraw_with_fee, pot_hash, amount, fee, min_balance) is Err
            &&& 0 < amount && fee <= amount ==> withdraw_with_fee_check(
                withdraw_with_fee,
                pot_hash,
                amount,
                fee,
                min_balance,
            ) == Err::<(), EscrowError>(EscrowError::Unauthorized)
        },
        deposit_usdc.owner.key != deposit_usdc.vault.data.owner ==> {
            &&& deposit_usdc_outcome(deposit_usdc, pot_hash, amount) is Err
            &&& amount > 0 ==> deposit_usdc_outcome(deposit_usdc, pot_hash, amount)->Err_0
                == EscrowError::Unauthorized
        },
        withdraw_usdc.owner.key != withdraw_usdc.vault.data.owner ==> {
            &&& withdraw_usdc_outcome(withdraw_usdc, pot_hash, amount) is Err
            &&& amount > 0 ==> withdraw_usdc_outcome(withdraw_usdc, pot_hash, amount)->Err_0
                == EscrowError::Unauthorized
        },
        lulo_execute.owner.key != lulo_execute.vault.data.owner ==> {
            &&& relay_outcome(lulo_execute, remaining_accounts, pot_hash, ix_data, allowed) is Err
            &&& relay_outcome(lulo_execute, remaining_accounts, pot_hash, ix_data, allowed)->Err_0
                == EscrowError::Unauthorized
        },
{
}

/// No withdrawal takes a vault below its reserve floor. Whatever the caller,
/// the pot hash and the amounts, and whether the call is accepted or refused:
/// the vault pays nothing or exactly the amount; a vault at or above the floor
/// stays at or above it; a vault below the floor pays nothing at all. Nothing
/// is assumed of the balances that receive.
pub proof fn lemma_reserve_floor_kept(
    withdraw: Withdraw,
    withdraw_with_fee: WithdrawWithFee,
    pot_hash: [u8; 32],
    amount: u64,
    fee: u64,
    min_balance: u64,
)
    ensures
        ({
            let paid = withdraw_payout(withdraw, pot_hash, amount, min_balance);
            let accepted = withdraw_check(withdraw, pot_hash, amount, min_balance) is Ok;
            &&& paid == 0 || paid == amount
            &&& paid <= withdraw.vault.lamports
            &&& accepted ==> withdraw.vault.lamports - paid >= min_balance
            &&& withdraw.vault.lamports >= min_balance ==> withdraw.vault.lamports - paid
                >= min_balance
            &&& withdraw.vault.lamports < min_balance ==> !accepted && paid == 0
            &&& accepted <==> (authorization(withdraw.vault.data, withdraw.owner.key, pot_hash)
                is Ok && withdraw.vault.lamports - min_balance >= amount)
        }),
        ({
            let paid = fee_split(withdraw_with_fee, pot_hash, amount, fee, min_balance).vault_debit;
            let accepted = withdraw_with_fee_check(
                withdraw_with_fee,
                pot_hash,
                amount,
                fee,
                min_balance,
            ) is Ok;
            &&& paid == 0 || paid == amount
            &&& paid <= withdraw_with_fee.vault.lamports
            &&& accepted ==> withdraw_with_fee.vault.lamports - paid >= min_balance
            &&& withdraw_with_fee.vault.lamports >= min_balance
                ==> withdraw_with_fee.vault.lamports - paid >= min_balance
            &&& withdraw_with_fee.vault.lamports < min_balance ==> !accepted && paid == 0
        }),
{
}

/// A withdrawal with a fee is accepted only with a fee that is part of the
/// amount, and then what the owner and the admin vault receive adds up to
/// exactly what the vault pays: the admin vault receives the fee, the owner
/// the amount less the fee. A refused one moves nothing. Nothing is assumed of
/// the balances that receive.
pub proof fn lemma_fee_split_exact(
    ctx: WithdrawWithFee,
    pot_hash: [u8; 32],
    amount: u64,
    fee: u64,
    min_balance: u64,
)
    ensures
        ({
            let split = fee_split(ctx, pot_hash, amount, fee, min_balance);
            let accepted = withdraw_with_fee_check(ctx, pot_hash, amount, fee, min_balance) is Ok;
            &&& split.owner_credit + split.admin_credit == split.vault_debit
            &&& accepted ==> {
                &&& 0 < amount
                &&& fee <= amount
                &&& split.vault_debit == amount
                &&& split.admin_credit == fee
                &&& split.owner_credit == amount - fee
            }
            &&& !accepted ==> split.vault_debit == 0 && split.owner_credit == 0
                && split.admin_credit == 0
        }),
{
}

} // verus!
