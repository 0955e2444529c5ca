//! The two persisted records: a vault and an allocation policy.

use crate::pubkey::{zero_bytes, Pubkey};
use vstd::prelude::*;

verus! {

/// The record of one vault. There is one vault for each pair of owner and pot;
/// its fields are written once, when the vault is created.
#[derive(Clone, Copy, Debug, PartialEq, Eq)]
pub struct Vault {
    /// The principal that controls the vault.
    pub owner: Pubkey,
    /// Identifies the pot the vault belongs to. Never interpreted, only compared.
    pub pot_hash: [u8; 32],
    /// The byte that completed the derivation of the vault's address.
    pub bump: u8,
    /// The mint of the token the vault may hold.
    pub usdc_mint: Pubkey,
    /// The token account that holds the vault's tokens.
    pub usdc_vault: Pubkey,
}

impl Vault {
    /// The stored size of a vault record in bytes: an 8-byte tag, then the
    /// fields in order. The reserve floor of a vault is computed from it.
    pub const SPACE: usize = 8 + 32 + 32 + 1 + 32 + 32;
}

/// The allocation policy of one pot.
#[derive(Clone, Copy, Debug, PartialEq, Eq)]
pub struct PodPolicy {
    /// Who may update the policy. The all-zero address until the first write.
    pub authority: Pubkey,
    /// The pot this policy governs.
    pub pod_hash: [u8; 32],
    /// The risk tier, `0`, `1` or `2`.
    pub risk_state: u8,
    /// Target share of the stablecoin, in basis points.
    pub target_usdc_bps: u16,
    /// Target share of the first asset, in basis points.
    pub target_btc_bps: u16,
    /// Target share of the second asset, in basis points.
    pub target_eth_bps: u16,
    /// Target share of the third asset, in basis points.
    pub target_sol_bps: u16,
    /// The part of the stablecoin share that is routed to the yield program.
    pub usdc_in_lulo_bps: u16,
    /// The byte that completed the derivation of the policy's address.
    pub bump: u8,
    /// Time of the last write, in seconds since the epoch.
    pub updated_at: i64,
}

/// The whole of an allocation, in basis points.
pub const TOTAL_BPS: u32 = 10_000;

/// The largest risk state.
pub const MAX_RISK_STATE: u8 = 2;

/// Whether a risk state and five basis-point figures make a valid allocation:
/// the risk state is known, the four targets add up to the whole, and the
/// yield share is part of the stablecoin target.
pub open spec fn allocation_valid(
    risk_state: u8,
    target_usdc_bps: u16,
    target_btc_bps: u16,
    target_eth_bps: u16,
    target_sol_bps: u16,
    usdc_in_lulo_bps: u16,
) -> bool {
    &&& risk_state <= MAX_RISK_STATE
    &&& target_usdc_bps + target_btc_bps + target_eth_bps + target_sol_bps == TOTAL_BPS
    &&& usdc_in_lulo_bps <= target_usdc_bps
}

impl PodPolicy {
    /// The stored size of a policy record in bytes: an 8-byte tag, then the
    /// fields in order.
    pub const SPACE: usize = 8 + 32 + 32 + 1 + 2 + 2 + 2 + 2 + 2 + 1 + 8;

    /// No write has been made yet: the record has no authority.
    pub open spec fn is_unclaimed(&self) -> bool {
        self.authority@ == zero_bytes()
    }

    /// The sum of the four targets.
    pub open spec fn target_sum(&self) -> int {
        self.target_usdc_bps + self.target_btc_bps + self.target_eth_bps + self.target_sol_bps
    }

    /// The record is as `new` makes it: every field zero.
    pub open spec fn is_blank(&self) -> bool {
        &&& self.is_unclaimed()
        &&& self.pod_hash@ == zero_bytes()
        &&& self.risk_state == 0
        &&& self.target_sum() == 0
        &&& self.usdc_in_lulo_bps == 0
        &&& self.bump == 0
        &&& self.updated_at == 0
    }

    /// What holds of every policy record: it is blank, or it holds a valid
    /// allocation.
    pub open spec fn well_formed(&self) -> bool {
        self.is_blank() || self.is_valid()
    }

    /// What holds of a policy after every successful write.
    pub open spec fn is_valid(&self) -> bool {
        allocation_valid(
            self.risk_state,
            self.target_usdc_bps,
            self.target_btc_bps,
            self.target_eth_bps,
            self.target_sol_bps,
            self.usdc_in_lulo_bps,
        )
    }

    /// A record that no write has touched: every field zero.
    pub fn new() -> (p: PodPolicy)
        ensures
            p.is_blank(),
            p.well_formed(),
    {
        let p = PodPolicy {
            authority: Pubkey::default(),
            pod_hash: [0u8; 32],
            risk_state: 0,
            target_usdc_bps: 0,
            target_btc_bps: 0,
            target_eth_bps: 0,
            target_sol_bps: 0,
            usdc_in_lulo_bps: 0,
            bump: 0,
            updated_at: 0,
        };
        assert(p.pod_hash@ =~= zero_bytes());
        p
    }
}

} // verus!
