//! The relay: a vault's owner has an instruction forwarded to the one
//! allow-listed program, and the vault signs it.

use crate::accounts::LuloExecute;
use crate::address::{vault_signer_seeds, VaultSigningSeeds};
use crate::auth::{authorization, authorize};
use crate::error::EscrowError;
use crate::instruction::{AccountMeta, Instruction, InstructionView};
use crate::pubkey::{
    lemma_pubkey_ext, option_view, parse_pubkey, pubkey_from_str, Pubkey, LULO_PROGRAM_ID,
};
use vstd::prelude::*;

verus! {

/// What a successful relay hands back: the instruction to invoke, and the
/// seeds with which the vault signs that one invocation.
#[derive(Debug)]
pub struct RelayCall {
    pub instruction: Instruction,
    pub signer_seeds: VaultSigningSeeds,
}

/// A relay call as a mathematical value.
pub struct RelayCallView {
    pub instruction: InstructionView,
    pub signer_seeds: Seq<Seq<u8>>,
}

impl View for RelayCall {
    type V = RelayCallView;

    open spec fn view(&self) -> RelayCallView {
        RelayCallView { instruction: self.instruction@, signer_seeds: self.signer_seeds@ }
    }
}

/// The view of the result of a relay.
pub open spec fn relay_result_view(r: Result<RelayCall, EscrowError>) -> Result<
    RelayCallView,
    EscrowError,
> {
    match r {
        Ok(call) => Ok(call@),
        Err(e) => Err(e),
    }
}

/// An account as it is forwarded: a signer if it was one, or if it is the
/// vault itself. Nothing else changes.
pub open spec fn elevated(meta: AccountMeta, vault_key: Pubkey) -> AccountMeta {
    AccountMeta {
        pubkey: meta.pubkey,
        is_signer: meta.is_signer || meta.pubkey == vault_key,
        is_writable: meta.is_writable,
    }
}

/// The forwarded account list: every account of the caller's list, in order,
/// each one elevated.
pub open spec fn elevate_all(accounts: Seq<AccountMeta>, vault_key: Pubkey) -> Seq<AccountMeta> {
    Seq::new(accounts.len(), |i: int| elevated(accounts[i], vault_key))
}

/// Builds the forwarded account list.
pub fn elevate_signers(accounts: &Vec<AccountMeta>, vault_key: &Pubkey) -> (out: Vec<AccountMeta>)
    ensures
        out@ == elevate_all(accounts@, *vault_key),
{
    let mut metas: Vec<AccountMeta> = Vec::with_capacity(accounts.len());
    let mut i: usize = 0;
    while i < accounts.len()
        invariant
            i <= accounts.len(),
            metas@.len() == i,
            forall|j: int| 0 <= j < i ==> metas@[j] == elevated(accounts@[j], *vault_key),
        decreases accounts.len() - i,
    {
        let acc = accounts[i];
        let mut is_signer = acc.is_signer;
        if acc.pubkey == *vault_key {
            is_signer = true;
        }
        metas.push(AccountMeta { pubkey: acc.pubkey, is_signer, is_writable: acc.is_writable });
        i += 1;
    }
    assert(metas@ =~= elevate_all(accounts@, *vault_key));
    metas
}

/// The outcome of a relay when `allowed` is the allow-listed program (`None`
/// if there is none): the authorization check comes first; then any target but
/// the allow-listed one is `InvalidProgram`; otherwise the instruction goes to
/// the target with the caller's payload and the elevated account list, signed
/// with the vault's seeds.
pub open spec fn relay_outcome(
    ctx: LuloExecute,
    remaining_accounts: Seq<AccountMeta>,
    pot_hash: [u8; 32],
    ix_data: Seq<u8>,
    allowed: Option<Seq<u8>>,
) -> Result<RelayCallView, EscrowError> {
    match authorization(ctx.vault.data, ctx.owner.key, pot_hash) {
        Err(e) => Err(e),
        Ok(()) => if allowed != Some(ctx.lulo_program@) {
            Err(EscrowError::InvalidProgram)
        } else {
            Ok(
                RelayCallView {
                    instruction: InstructionView {
                        program_id: ctx.lulo_program,
                        accounts: elevate_all(remaining_accounts, ctx.vault.key),
                        data: ix_data,
                    },
                    signer_seeds: vault_signer_seeds(
                        ctx.owner.key,
                        ctx.vault.data.pot_hash,
                        ctx.vault.data.bump,
                    ),
                },
            )
        },
    }
}

/// The relay for a given allow-listed program. `lulo_execute` is the entry
/// point: it fixes `allowed` to the one program this engine signs for.
pub fn relay_instruction(
    ctx: &LuloExecute,
    remaining_accounts: &Vec<AccountMeta>,
    pot_hash: [u8; 32],
    ix_data: Vec<u8>,
    allowed: Option<Pubkey>,
) -> (r: Result<RelayCall, EscrowError>)
    ensures
        relay_result_view(r) == relay_outcome(
            *ctx,
            remaining_accounts@,
            pot_hash,
            ix_data@,
            option_view(allowed),
        ),
{
    match authorize(&ctx.vault.data, &ctx.owner.key, &pot_hash) {
        Err(e) => {
            return Err(e);
        },
        Ok(()) => {},
    }
    let expected_program = match allowed {
        Some(key) => key,
        None => {
            return Err(EscrowError::InvalidProgram);
        },
    };
    proof {
        lemma_pubkey_ext(ctx.lulo_program, expected_program);
    }
    if ctx.lulo_program != expected_program {
        return Err(EscrowError::InvalidProgram);
    }
    let metas = elevate_signers(remaining_accounts, &ctx.vault.key);
    let instruction = Instruction { program_id: ctx.lulo_program, accounts: metas, data: ix_data };
    let signer_seeds = VaultSigningSeeds::new(
        ctx.owner.key,
        ctx.vault.data.pot_hash,
        ctx.vault.data.bump,
    );
    Ok(RelayCall { instruction, signer_seeds })
}

/// Relays an instruction of the vault's owner to the allow-listed program.
/// On success the caller invokes the returned instruction once, with the
/// returned seeds as the vault's signature; whatever that invocation fails
/// with is the failure of the whole operation.
pub fn lulo_execute(
    ctx: &LuloExecute,
    remaining_accounts: &Vec<AccountMeta>,
    pot_hash: [u8; 32],
    ix_data: Vec<u8>,
) -> (r: Result<RelayCall, EscrowError>)
    ensures
        relay_result_view(r) == relay_outcome(
            *ctx,
            remaining_accounts@,
            pot_hash,
            ix_data@,
            pubkey_from_str(LULO_PROGRAM_ID@),
        ),
        r is Ok ==> pubkey_from_str(LULO_PROGRAM_ID@) == Some(ctx.lulo_program@),
{
    let allowed = match parse_pubkey(LULO_PROGRAM_ID) {
        Ok(key) => Some(key),
        Err(_) => None,
    };
    relay_instruction(ctx, remaining_accounts, pot_hash, ix_data, allowed)
}

/// A relay succeeds only for the owner, with the vault's own pot hash, and
/// only when the target is exactly the allow-listed program; it then forwards
/// to that program and to no other.
pub proof fn lemma_relay_target_pinned(
    ctx: LuloExecute,
    remaining_accounts: Seq<AccountMeta>,
    pot_hash: [u8; 32],
    ix_data: Seq<u8>,
    allowed: Option<Seq<u8>>,
)
    ensures
        relay_outcome(ctx, remaining_accounts, pot_hash, ix_data, allowed) is Ok <==> (
        authorization(ctx.vault.data, ctx.owner.key, pot_hash) is Ok && allowed == Some(
            ctx.lulo_program@,
        )),
        authorization(ctx.vault.data, ctx.owner.key, pot_hash) is Ok && allowed != Some(
            ctx.lulo_program@,
        ) ==> relay_outcome(ctx, remaining_accounts, pot_hash, ix_data, allowed) == Err::<
            RelayCallView,
            EscrowError,
        >(EscrowError::InvalidProgram),
        relay_outcome(ctx, remaining_accounts, pot_hash, ix_data, allowed) matches Ok(call)
            ==> call.instruction.program_id@ == allowed->Some_0,
{
}

/// In the forwarded list every account keeps its place, its address and its
/// writable flag; an account at the vault's own address is a signer whatever
/// the caller marked it as; every other account keeps the caller's mark.
pub proof fn lemma_vault_always_signs(accounts: Seq<AccountMeta>, vault_key: Pubkey)
    ensures
        elevate_all(accounts, vault_key).len() == accounts.len(),
        forall|i: int|
            0 <= i < accounts.len() ==> {
                let out = #[trigger] elevate_all(accounts, vault_key)[i];
                &&& out.pubkey == accounts[i].pubkey
                &&& out.is_writable == accounts[i].is_writable
                &&& (out.pubkey == vault_key ==> out.is_signer)
                &&& (out.pubkey != vault_key ==> out.is_signer == accounts[i].is_signer)
            },
{
}

} // verus!
