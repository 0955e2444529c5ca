//! Vault addresses: each is derived from the owner and the pot hash, and the
//! same three seeds and the bump let the vault sign for itself.

use crate::accounts::VaultAccount;
use crate::pubkey::{parse_pubkey, pubkey_from_str, Pubkey, PROGRAM_ID};
use vstd::prelude::*;
use vstd::slice::slice_to_vec;

verus! {

/// The first seed of every vault address: the bytes of `pot_vault`.
pub const VAULT_SEED: [u8; 9] = [112, 111, 116, 95, 118, 97, 117, 108, 116];

/// The first seed of every policy address: the bytes of `pod_policy`.
pub const POLICY_SEED: [u8; 10] = [112, 111, 100, 95, 112, 111, 108, 105, 99, 121];

/// The seeds that a policy's address is derived from.
pub open spec fn policy_seeds(pod_hash: [u8; 32]) -> Seq<Seq<u8>> {
    seq![POLICY_SEED@, pod_hash@]
}

/// The seeds that a vault's address is derived from.
pub open spec fn vault_seeds(owner: Pubkey, pot_hash: [u8; 32]) -> Seq<Seq<u8>> {
    seq![VAULT_SEED@, owner@, pot_hash@]
}

/// The seeds that a vault signs with: those of its address, then the bump.
pub open spec fn vault_signer_seeds(owner: Pubkey, pot_hash: [u8; 32], bump: u8) -> Seq<Seq<u8>> {
    vault_seeds(owner, pot_hash).push(seq![bump])
}

/// A list of seeds as a mathematical value.
pub open spec fn seeds_view(seeds: Seq<Vec<u8>>) -> Seq<Seq<u8>> {
    Seq::new(seeds.len(), |i: int| seeds[i]@)
}

/// The error of `Address::create_program_address` in `solana_address`: a seed
/// is too long, or the seeds give an address that is on the curve.
/// `anchor_lang` hands the type on as `solana_program::pubkey::PubkeyError`.
#[verifier::external_type_specification]
#[verifier::external_body]
pub struct ExPubkeyError(anchor_lang::solana_program::pubkey::PubkeyError);

/// What `Address::create_program_address` of `solana_address` derives from a
/// list of seeds and a program's address: the derived address, or `None`
/// where it returns an error.
pub uninterp spec fn program_address(seeds: Seq<Seq<u8>>, program_id: Seq<u8>) -> Option<Seq<u8>>;

/// What `Address::try_find_program_address` of `solana_address` finds for a
/// list of seeds and a program's address: an address and the bump that led to
/// it, or `None` where no bump does.
pub uninterp spec fn found_program_address(seeds: Seq<Seq<u8>>, program_id: Seq<u8>) -> Option<
    (Seq<u8>, u8),
>;

/// Derives an address with `Address::create_program_address` of
/// `solana_address`, the type that `anchor_lang` hands on as
/// `solana_program::pubkey::Pubkey`. Nothing is proved of the derivation: the
/// contract only gives its outcome the name `program_address`.
#[verifier::external_body]
pub(crate) fn create_program_address(seeds: &Vec<Vec<u8>>, program_id: &Pubkey) -> (r: Result<
    Pubkey,
    anchor_lang::solana_program::pubkey::PubkeyError,
>)
    ensures
        match r {
            Ok(p) => program_address(seeds_view(seeds@), program_id@) == Some(p@),
            Err(_) => program_address(seeds_view(seeds@), program_id@) is None,
        },
{
    let slices: Vec<&[u8]> = seeds.iter().map(|s| s.as_slice()).collect();
    let id = anchor_lang::solana_program::pubkey::Pubkey::new_from_array(program_id.bytes);
    match anchor_lang::solana_program::pubkey::Pubkey::create_program_address(&slices, &id) {
        Ok(key) => Ok(Pubkey { bytes: key.to_bytes() }),
        Err(e) => Err(e),
    }
}

/// Searches for an address with `Address::try_find_program_address` of
/// `solana_address`. The contract gives the outcome the name
/// `found_program_address` and states the one thing that the function's source
/// shows of it and that this library relies on: an address that was found with
/// a bump is the address that `create_program_address` derives from the same
/// seeds followed by that bump.
#[verifier::external_body]
pub(crate) fn try_find_program_address(seeds: &Vec<Vec<u8>>, program_id: &Pubkey) -> (r: Option<
    (Pubkey, u8),
>)
    ensures
        match r {
            Some((p, bump)) => {
                &&& found_program_address(seeds_view(seeds@), program_id@) == Some((p@, bump))
                &&& program_address(seeds_view(seeds@).push(seq![bump]), program_id@) == Some(p@)
            },
            None => found_program_address(seeds_view(seeds@), program_id@) is None,
        },
{
    let slices: Vec<&[u8]> = seeds.iter().map(|s| s.as_slice()).collect();
    let id = anchor_lang::solana_program::pubkey::Pubkey::new_from_array(program_id.bytes);
    match anchor_lang::solana_program::pubkey::Pubkey::try_find_program_address(&slices, &id) {
        Some((key, bump)) => Some((Pubkey { bytes: key.to_bytes() }, bump)),
        None => None,
    }
}

/// The seeds of a vault's address as owned byte strings.
fn build_vault_seeds(owner: &Pubkey, pot_hash: &[u8; 32]) -> (seeds: Vec<Vec<u8>>)
    ensures
        seeds_view(seeds@) == vault_seeds(*owner, *pot_hash),
{
    let mut seeds: Vec<Vec<u8>> = Vec::with_capacity(4);
    seeds.push(slice_to_vec(VAULT_SEED.as_slice()));
    seeds.push(slice_to_vec(owner.bytes.as_slice()));
    seeds.push(slice_to_vec(pot_hash.as_slice()));
    assert(seeds_view(seeds@) =~= vault_seeds(*owner, *pot_hash));
    seeds
}

/// The seeds a vault signs with as owned byte strings.
fn build_vault_signer_seeds(owner: &Pubkey, pot_hash: &[u8; 32], bump: u8) -> (seeds: Vec<Vec<u8>>)
    ensures
        seeds_view(seeds@) == vault_signer_seeds(*owner, *pot_hash, bump),
{
    let mut seeds = build_vault_seeds(owner, pot_hash);
    let mut last: Vec<u8> = Vec::with_capacity(1);
    last.push(bump);
    seeds.push(last);
    assert(seeds_view(seeds@) =~= vault_signer_seeds(*owner, *pot_hash, bump));
    seeds
}

/// The view of an address that was found together with its bump.
pub open spec fn found_view(r: Option<(Pubkey, u8)>) -> Option<(Seq<u8>, u8)> {
    match r {
        Some((key, bump)) => Some((key@, bump)),
        None => None,
    }
}

/// The address and bump of the vault of `owner` and `pot_hash` under the
/// program `program_id`, or `None` where the search finds no address.
pub fn find_vault_address(program_id: &Pubkey, owner: &Pubkey, pot_hash: &[u8; 32]) -> (r: Option<
    (Pubkey, u8),
>)
    ensures
        found_view(r) == found_program_address(vault_seeds(*owner, *pot_hash), program_id@),
        r matches Some((key, bump)) ==> program_address(
            vault_signer_seeds(*owner, *pot_hash, bump),
            program_id@,
        ) == Some(key@),
{
    let seeds = build_vault_seeds(owner, pot_hash);
    try_find_program_address(&seeds, program_id)
}

/// The address and bump that `derive_vault_address` returns: what the search
/// finds under this program's own address.
pub open spec fn derived_vault_address(owner: Pubkey, pot_hash: [u8; 32]) -> Option<(Seq<u8>, u8)> {
    match pubkey_from_str(PROGRAM_ID@) {
        Some(id) => found_program_address(vault_seeds(owner, pot_hash), id),
        None => None,
    }
}

/// The address and bump of the vault of `owner` and `pot_hash` under this
/// program. The same owner and pot hash always give the same address and bump.
pub fn derive_vault_address(owner: &Pubkey, pot_hash: &[u8; 32]) -> (r: Option<(Pubkey, u8)>)
    ensures
        found_view(r) == derived_vault_address(*owner, *pot_hash),
{
    match parse_pubkey(PROGRAM_ID) {
        Ok(id) => find_vault_address(&id, owner, pot_hash),
        Err(_) => None,
    }
}

/// The address and bump of the policy of the pot `pod_hash` under the program
/// `program_id`, or `None` where the search finds no address.
pub fn find_policy_address(program_id: &Pubkey, pod_hash: &[u8; 32]) -> (r: Option<(Pubkey, u8)>)
    ensures
        found_view(r) == found_program_address(policy_seeds(*pod_hash), program_id@),
{
    let mut seeds: Vec<Vec<u8>> = Vec::with_capacity(2);
    seeds.push(slice_to_vec(POLICY_SEED.as_slice()));
    seeds.push(slice_to_vec(pod_hash.as_slice()));
    assert(seeds_view(seeds@) =~= policy_seeds(*pod_hash));
    try_find_program_address(&seeds, program_id)
}

/// The address and bump that `derive_policy_address` returns: what the search
/// finds under this program's own address.
pub open spec fn derived_policy_address(pod_hash: [u8; 32]) -> Option<(Seq<u8>, u8)> {
    match pubkey_from_str(PROGRAM_ID@) {
        Some(id) => found_program_address(policy_seeds(pod_hash), id),
        None => None,
    }
}

/// The address and bump of the policy of the pot `pod_hash` under this
/// program. The same pot always gives the same address and bump.
pub fn derive_policy_address(pod_hash: &[u8; 32]) -> (r: Option<(Pubkey, u8)>)
    ensures
        found_view(r) == derived_policy_address(*pod_hash),
{
    match parse_pubkey(PROGRAM_ID) {
        Ok(id) => find_policy_address(&id, pod_hash),
        Err(_) => None,
    }
}

/// The address that the seeds of a vault and a stored bump derive under the
/// program `program_id`, or `None` where they derive none.
pub fn vault_address_with_bump(
    program_id: &Pubkey,
    owner: &Pubkey,
    pot_hash: &[u8; 32],
    bump: u8,
) -> (r: Option<Pubkey>)
    ensures
        crate::pubkey::option_view(r) == program_address(
            vault_signer_seeds(*owner, *pot_hash, bump),
            program_id@,
        ),
{
    let seeds = build_vault_signer_seeds(owner, pot_hash, bump);
    match create_program_address(&seeds, program_id) {
        Ok(key) => Some(key),
        Err(_) => None,
    }
}

/// Whether the address of a vault account is the one that its own record
/// derives: the owner, the pot hash and the bump stored in it.
pub open spec fn address_is_derived(program_id: Pubkey, account: VaultAccount) -> bool {
    program_address(
        vault_signer_seeds(account.data.owner, account.data.pot_hash, account.data.bump),
        program_id@,
    ) == Some(account.key@)
}

/// Recomputes the address of a vault account from its record and compares.
pub fn verify_vault_address(program_id: &Pubkey, account: &VaultAccount) -> (r: bool)
    ensures
        r == address_is_derived(*program_id, *account),
{
    match vault_address_with_bump(
        program_id,
        &account.data.owner,
        &account.data.pot_hash,
        account.data.bump,
    ) {
        Some(key) => {
            proof {
                crate::pubkey::lemma_pubkey_ext(key, account.key);
            }
            key == account.key
        },
        None => false,
    }
}

/// The right to sign as a vault: the seeds of its address and its bump. Only
/// this library makes one, for the one call that a successful operation
/// returns it with; it cannot be copied, and it is used up when the seeds are
/// taken out.
#[derive(Debug)]
pub struct VaultSigningSeeds {
    owner: Pubkey,
    pot_hash: [u8; 32],
    bump: u8,
}

impl View for VaultSigningSeeds {
    type V = Seq<Seq<u8>>;

    closed spec fn view(&self) -> Seq<Seq<u8>> {
        vault_signer_seeds(self.owner, self.pot_hash, self.bump)
    }
}

impl VaultSigningSeeds {
    pub(crate) fn new(owner: Pubkey, pot_hash: [u8; 32], bump: u8) -> (s: VaultSigningSeeds)
        ensures
            s@ == vault_signer_seeds(owner, pot_hash, bump),
    {
        VaultSigningSeeds { owner, pot_hash, bump }
    }

    /// Gives up the right for the four seeds, in the order in which they are
    /// hashed.
    pub fn into_seeds(self) -> (seeds: Vec<Vec<u8>>)
        ensures
            seeds_view(seeds@) == self@,
    {
        build_vault_signer_seeds(&self.owner, &self.pot_hash, self.bump)
    }
}

} // verus!
