//! The store of allocation policies: one record per pot, written as a whole
//! or not at all.

use crate::accounts::UpdatePolicy;
use crate::error::EscrowError;
use crate::pubkey::{zero_bytes, Pubkey};
use crate::state::{allocation_valid, PodPolicy, MAX_RISK_STATE, TOTAL_BPS};
use vstd::prelude::*;

verus! {

/// The verdict on a write to a policy by `authority`. The figures are judged
/// first, in this order: the risk state, the sum of the four targets, the
/// yield share. Then the caller: anyone may make the first write; after it,
/// only the recorded authority.
pub open spec fn policy_check(
    policy: PodPolicy,
    authority: Pubkey,
    risk_state: u8,
    target_usdc_bps: u16,
    target_btc_bps: u16,
    target_eth_bps: u16,
    target_sol_bps: u16,
    usdc_in_lulo_bps: u16,
) -> Result<(), EscrowError> {
    if risk_state > MAX_RISK_STATE {
        Err(EscrowError::InvalidRiskState)
    } else if target_usdc_bps + target_btc_bps + target_eth_bps + target_sol_bps != TOTAL_BPS {
        Err(EscrowError::InvalidBps)
    } else if usdc_in_lulo_bps > target_usdc_bps {
        Err(EscrowError::InvalidLuloAllocation)
    } else if !policy.is_unclaimed() && policy.authority != authority {
        Err(EscrowError::Unauthorized)
    } else {
        Ok(())
    }
}

/// The record that a successful write leaves. The first write records the
/// caller as the authority, and the bump; no later write changes either.
pub open spec fn written_policy(
    ctx: UpdatePolicy,
    pod_hash: [u8; 32],
    risk_state: u8,
    target_usdc_bps: u16,
    target_btc_bps: u16,
    target_eth_bps: u16,
    target_sol_bps: u16,
    usdc_in_lulo_bps: u16,
    unix_timestamp: i64,
) -> PodPolicy {
    PodPolicy {
        authority: if ctx.pod_policy.is_unclaimed() {
            ctx.authority.key
        } else {
            ctx.pod_policy.authority
        },
        pod_hash,
        risk_state,
        target_usdc_bps,
        target_btc_bps,
        target_eth_bps,
        target_sol_bps,
        usdc_in_lulo_bps,
        bump: if ctx.pod_policy.is_unclaimed() {
            ctx.pod_policy_bump
        } else {
            ctx.pod_policy.bump
        },
        updated_at: unix_timestamp,
    }
}

/// Judges a write to a policy without making it.
pub fn check_update_policy(
    ctx: &UpdatePolicy,
    risk_state: u8,
    target_usdc_bps: u16,
    target_btc_bps: u16,
    target_eth_bps: u16,
    target_sol_bps: u16,
    usdc_in_lulo_bps: u16,
) -> (r: Result<(), EscrowError>)
    ensures
        r == policy_check(
            ctx.pod_policy,
            ctx.authority.key,
            risk_state,
            target_usdc_bps,
            target_btc_bps,
            target_eth_bps,
            target_sol_bps,
            usdc_in_lulo_bps,
        ),
{
    if risk_state > MAX_RISK_STATE {
        return Err(EscrowError::InvalidRiskState);
    }
    let target_sum: u32 = target_usdc_bps as u32 + target_btc_bps as u32 + target_eth_bps as u32
        + target_sol_bps as u32;
    if target_sum != TOTAL_BPS {
        return Err(EscrowError::InvalidBps);
    }
    if usdc_in_lulo_bps > target_usdc_bps {
        return Err(EscrowError::InvalidLuloAllocation);
    }
    if !ctx.pod_policy.authority.is_default() && ctx.pod_policy.authority != ctx.authority.key {
        return Err(EscrowError::Unauthorized);
    }
    Ok(())
}

/// Writes the policy of a pot at the time `unix_timestamp`. Every check comes
/// before the first field is written: a refused write leaves the record as it
/// was.
pub fn update_policy(
    ctx: &mut UpdatePolicy,
    pod_hash: [u8; 32],
    risk_state: u8,
    target_usdc_bps: u16,
    target_btc_bps: u16,
    target_eth_bps: u16,
    target_sol_bps: u16,
    usdc_in_lulo_bps: u16,
    unix_timestamp: i64,
) -> (r: Result<(), EscrowError>)
    ensures
        r == policy_check(
            old(ctx).pod_policy,
            old(ctx).authority.key,
            risk_state,
            target_usdc_bps,
            target_btc_bps,
            target_eth_bps,
            target_sol_bps,
            usdc_in_lulo_bps,
        ),
        r is Err ==> *final(ctx) == *old(ctx),
        r is Ok ==> *final(ctx) == (UpdatePolicy {
            pod_policy: written_policy(
                *old(ctx),
                pod_hash,
                risk_state,
                target_usdc_bps,
                target_btc_bps,
                target_eth_bps,
                target_sol_bps,
                usdc_in_lulo_bps,
                unix_timestamp,
            ),
            ..*old(ctx)
        }),
        r is Ok ==> final(ctx).pod_policy.is_valid(),
        old(ctx).pod_policy.well_formed() ==> final(ctx).pod_policy.well_formed(),
        r is Ok ==> final(ctx).pod_policy.target_sum() == TOTAL_BPS,
        r is Ok ==> final(ctx).pod_policy.usdc_in_lulo_bps <= final(ctx).pod_policy.target_usdc_bps,
{
    match check_update_policy(
        ctx,
        risk_state,
        target_usdc_bps,
        target_btc_bps,
        target_eth_bps,
        target_sol_bps,
        usdc_in_lulo_bps,
    ) {
        Err(e) => {
            return Err(e);
        },
        Ok(()) => {},
    }
    if ctx.pod_policy.authority.is_default() {
        ctx.pod_policy.authority = ctx.authority.key;
        ctx.pod_policy.bump = ctx.pod_policy_bump;
    }
    ctx.pod_policy.pod_hash = pod_hash;
    ctx.pod_policy.risk_state = risk_state;
    ctx.pod_policy.target_usdc_bps = target_usdc_bps;
    ctx.pod_policy.target_btc_bps = target_btc_bps;
    ctx.pod_policy.target_eth_bps = target_eth_bps;
    ctx.pod_policy.target_sol_bps = target_sol_bps;
    ctx.pod_policy.usdc_in_lulo_bps = usdc_in_lulo_bps;
    ctx.pod_policy.updated_at = unix_timestamp;
    Ok(())
}

/// A write is accepted exactly when the figures make a valid allocation and
/// the caller may write; the record it leaves is then valid: the four targets
/// sum to the whole and the yield share is within the stablecoin target.
pub proof fn lemma_written_policy_valid(
    ctx: UpdatePolicy,
    pod_hash: [u8; 32],
    risk_state: u8,
    target_usdc_bps: u16,
    target_btc_bps: u16,
    target_eth_bps: u16,
    target_sol_bps: u16,
    usdc_in_lulo_bps: u16,
    unix_timestamp: i64,
)
    ensures
        policy_check(
            ctx.pod_policy,
            ctx.authority.key,
            risk_state,
            target_usdc_bps,
            target_btc_bps,
            target_eth_bps,
            target_sol_bps,
            usdc_in_lulo_bps,
        ) is Ok <==> (allocation_valid(
            risk_state,
            target_usdc_bps,
            target_btc_bps,
            target_eth_bps,
            target_sol_bps,
            usdc_in_lulo_bps,
        ) && (ctx.pod_policy.is_unclaimed() || ctx.pod_policy.authority == ctx.authority.key)),
        allocation_valid(
            risk_state,
            target_usdc_bps,
            target_btc_bps,
            target_eth_bps,
            target_sol_bps,
            usdc_in_lulo_bps,
        ) ==> {
            let written = written_policy(
                ctx,
                pod_hash,
                risk_state,
                target_usdc_bps,
                target_btc_bps,
                target_eth_bps,
                target_sol_bps,
                usdc_in_lulo_bps,
                unix_timestamp,
            );
            &&& written.is_valid()
            &&& written.target_sum() == TOTAL_BPS
            &&& written.usdc_in_lulo_bps <= written.target_usdc_bps
            &&& written.risk_state <= MAX_RISK_STATE
        },
{
}

/// Once a caller other than the all-zero address has written a policy, the
/// authority never changes again: a later write by that caller keeps it, and a
/// write by anyone else, whatever its figures, is refused.
pub proof fn lemma_authority_is_permanent(
    ctx: UpdatePolicy,
    other: Pubkey,
    risk_state: u8,
    target_usdc_bps: u16,
    target_btc_bps: u16,
    target_eth_bps: u16,
    target_sol_bps: u16,
    usdc_in_lulo_bps: u16,
)
    requires
        !ctx.pod_policy.is_unclaimed(),
        other != ctx.pod_policy.authority,
    ensures
        policy_check(
            ctx.pod_policy,
            other,
            risk_state,
            target_usdc_bps,
            target_btc_bps,
            target_eth_bps,
            target_sol_bps,
            usdc_in_lulo_bps,
        ) is Err,
        allocation_valid(
            risk_state,
            target_usdc_bps,
            target_btc_bps,
            target_eth_bps,
            target_sol_bps,
            usdc_in_lulo_bps,
        ) ==> policy_check(
            ctx.pod_policy,
            other,
            risk_state,
            target_usdc_bps,
            target_btc_bps,
            target_eth_bps,
            target_sol_bps,
            usdc_in_lulo_bps,
        ) == Err::<(), EscrowError>(EscrowError::Unauthorized),
        forall|pod_hash: [u8; 32], unix_timestamp: i64|
            (#[trigger] written_policy(
                ctx,
                pod_hash,
                risk_state,
                target_usdc_bps,
                target_btc_bps,
                target_eth_bps,
                target_sol_bps,
                usdc_in_lulo_bps,
                unix_timestamp,
            )).authority == ctx.pod_policy.authority,
{
}

/// The first write makes the caller the authority; unless the caller is the
/// all-zero address, the record is claimed from then on.
pub proof fn lemma_first_write_claims(
    ctx: UpdatePolicy,
    pod_hash: [u8; 32],
    risk_state: u8,
    target_usdc_bps: u16,
    target_btc_bps: u16,
    target_eth_bps: u16,
    target_sol_bps: u16,
    usdc_in_lulo_bps: u16,
    unix_timestamp: i64,
)
    requires
        ctx.pod_policy.is_unclaimed(),
    ensures
        ({
            let written = written_policy(
                ctx,
                pod_hash,
                risk_state,
                target_usdc_bps,
                target_btc_bps,
                target_eth_bps,
                target_sol_bps,
                usdc_in_lulo_bps,
                unix_timestamp,
            );
            &&& written.authority == ctx.authority.key
            &&& written.bump == ctx.pod_policy_bump
            &&& (ctx.authority.key@ != zero_bytes() ==> !written.is_unclaimed())
        }),
{
}

} // verus!
