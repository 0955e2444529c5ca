//! The check that stands before every operation on a vault.

use crate::error::EscrowError;
use crate::pubkey::{bytes32_eq, Pubkey};
use crate::state::Vault;
use vstd::prelude::*;

verus! {

/// The verdict on a caller who names a pot and asks to operate on a vault:
/// `Unauthorized` for anyone but the owner, then `BadPot` for any pot hash but
/// the vault's own.
pub open spec fn authorization(vault: Vault, caller: Pubkey, pot_hash: [u8; 32]) -> Result<
    (),
    EscrowError,
> {
    if vault.owner != caller {
        Err(EscrowError::Unauthorized)
    } else if vault.pot_hash != pot_hash {
        Err(EscrowError::BadPot)
    } else {
        Ok(())
    }
}

/// Checks that `caller` owns `vault` and that `pot_hash` is the vault's own.
/// Changes nothing.
pub fn authorize(vault: &Vault, caller: &Pubkey, pot_hash: &[u8; 32]) -> (r: Result<
    (),
    EscrowError,
>)
    ensures
        r == authorization(*vault, *caller, *pot_hash),
{
    if vault.owner != *caller {
        return Err(EscrowError::Unauthorized);
    }
    if !bytes32_eq(&vault.pot_hash, pot_hash) {
        return Err(EscrowError::BadPot);
    }
    Ok(())
}

/// The check passes for the owner with the right pot hash and for nobody else.
pub proof fn lemma_authorization_exact(vault: Vault, caller: Pubkey, pot_hash: [u8; 32])
    ensures
        authorization(vault, caller, pot_hash) is Ok <==> (vault.owner == caller && vault.pot_hash
            == pot_hash),
        authorization(vault, caller, pot_hash) == Err::<(), EscrowError>(EscrowError::Unauthorized)
            <==> vault.owner != caller,
        authorization(vault, caller, pot_hash) == Err::<(), EscrowError>(EscrowError::BadPot) <==> (
        vault.owner == caller && vault.pot_hash != pot_hash),
{
}

} // verus!
