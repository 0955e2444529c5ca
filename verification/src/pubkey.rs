//! Account addresses: 32 opaque bytes, compared byte for byte, and written
//! down as base58 text.

use std::str::FromStr;
use vstd::prelude::*;
use vstd::std_specs::cmp::PartialEqSpecImpl;

verus! {

/// The address of this program, in base58.
pub const PROGRAM_ID: &'static str = "8igAph8Ypy6YZh1QLhzzkvVkzGybzjCyBawAtHpWtVLX";

/// The address of the one program that a vault may relay instructions to, in
/// base58.
pub const LULO_PROGRAM_ID: &'static str = "FL3X2pRsQ9zHENpZSKDRREtccwJuei8yg9fwDu9UN69Q";

/// The address of an account: 32 bytes.
#[derive(Clone, Copy, Debug, Eq)]
pub struct Pubkey {
    pub bytes: [u8; 32],
}

impl View for Pubkey {
    type V = Seq<u8>;

    open spec fn view(&self) -> Seq<u8> {
        self.bytes@
    }
}

/// Thirty-two zero bytes: the default address, which is also the address of
/// the system program.
pub open spec fn zero_bytes() -> Seq<u8> {
    Seq::new(32, |i: int| 0u8)
}

/// Whether two 32-byte arrays hold the same bytes.
pub fn bytes32_eq(a: &[u8; 32], b: &[u8; 32]) -> (r: bool)
    ensures
        r == (*a == *b),
        r == (a@ == b@),
{
    let mut i: usize = 0;
    while i < 32
        invariant
            i <= 32,
            forall|j: int| 0 <= j < i ==> a[j] == b[j],
        decreases 32 - i,
    {
        if a[i] != b[i] {
            return false;
        }
        i += 1;
    }
    assert(*a =~= *b);
    true
}

impl PartialEq for Pubkey {
    fn eq(&self, other: &Pubkey) -> (r: bool) {
        bytes32_eq(&self.bytes, &other.bytes)
    }
}

impl PartialEqSpecImpl for Pubkey {
    open spec fn obeys_eq_spec() -> bool {
        true
    }

    open spec fn eq_spec(&self, other: &Pubkey) -> bool {
        *self == *other
    }
}

impl Default for Pubkey {
    fn default() -> (p: Pubkey)
        ensures
            p@ == zero_bytes(),
    {
        let p = Pubkey { bytes: [0u8; 32] };
        assert(p@ =~= zero_bytes());
        p
    }
}

impl Pubkey {
    /// The address made of the given bytes.
    pub fn new_from_array(bytes: [u8; 32]) -> (p: Pubkey)
        ensures
            p.bytes == bytes,
    {
        Pubkey { bytes }
    }

    /// The bytes of the address.
    pub fn to_bytes(&self) -> (bytes: [u8; 32])
        ensures
            bytes == self.bytes,
    {
        self.bytes
    }

    /// Whether this is the default, all-zero address.
    pub fn is_default(&self) -> (r: bool)
        ensures
            r == (self@ == zero_bytes()),
    {
        let zero = Pubkey::default();
        proof {
            lemma_pubkey_ext(*self, zero);
        }
        *self == zero
    }
}

/// Two addresses with the same bytes are the same address.
pub proof fn lemma_pubkey_ext(a: Pubkey, b: Pubkey)
    ensures
        (a@ == b@) == (a == b),
{
    if a@ == b@ {
        assert(a.bytes =~= b.bytes);
    }
}

/// The error of `Address::from_str` in `solana_address`: the text is no
/// base58, or does not decode to 32 bytes. `anchor_lang` hands the type on as
/// `solana_program::pubkey::ParsePubkeyError`.
#[verifier::external_type_specification]
#[verifier::external_body]
pub struct ExParsePubkeyError(anchor_lang::solana_program::pubkey::ParsePubkeyError);

/// What `Address::from_str` of `solana_address` makes of a text: the 32 bytes
/// it decodes to as base58, or `None` where it returns an error.
pub uninterp spec fn pubkey_from_str(s: Seq<char>) -> Option<Seq<u8>>;

/// Decodes base58 text with `Address::from_str` of `solana_address`, the type
/// that `anchor_lang` hands on as `solana_program::pubkey::Pubkey`. Nothing is
/// proved of the decoding: the contract only gives its outcome the name
/// `pubkey_from_str`, which is to say that the same text always decodes the
/// same way.
#[verifier::external_body]
pub(crate) fn parse_pubkey(s: &str) -> (r: Result<
    Pubkey,
    anchor_lang::solana_program::pubkey::ParsePubkeyError,
>)
    ensures
        match r {
            Ok(p) => pubkey_from_str(s@) == Some(p@),
            Err(_) => pubkey_from_str(s@) is None,
        },
{
    match anchor_lang::solana_program::pubkey::Pubkey::from_str(s) {
        Ok(key) => Ok(Pubkey { bytes: key.to_bytes() }),
        Err(e) => Err(e),
    }
}

/// The view of an optional address.
pub open spec fn option_view(p: Option<Pubkey>) -> Option<Seq<u8>> {
    match p {
        Some(key) => Some(key@),
        None => None,
    }
}

/// The address that a base58 text stands for, if it stands for one.
pub fn pubkey_from_base58(s: &str) -> (r: Option<Pubkey>)
    ensures
        option_view(r) == pubkey_from_str(s@),
{
    match parse_pubkey(s) {
        Ok(p) => Some(p),
        Err(_) => None,
    }
}

/// The address of this program.
pub fn program_id() -> (r: Option<Pubkey>)
    ensures
        option_view(r) == pubkey_from_str(PROGRAM_ID@),
{
    pubkey_from_base58(PROGRAM_ID)
}

/// The address of the allow-listed relay target.
pub fn lulo_program_id() -> (r: Option<Pubkey>)
    ensures
        option_view(r) == pubkey_from_str(LULO_PROGRAM_ID@),
{
    pubkey_from_base58(LULO_PROGRAM_ID)
}

} // verus!
