//! Instructions for other programs, as this engine hands them out to be
//! invoked.

use crate::pubkey::{zero_bytes, Pubkey};
use vstd::prelude::*;

verus! {

/// One account of an instruction: its address and what the invoked program
/// may do with it.
#[derive(Clone, Copy, Debug, PartialEq, Eq)]
pub struct AccountMeta {
    /// The address of the account.
    pub pubkey: Pubkey,
    /// Whether the account signs the instruction.
    pub is_signer: bool,
    /// Whether the invoked program may write to the account.
    pub is_writable: bool,
}

/// An instruction: the program to invoke, the accounts it is given, and the
/// payload.
#[derive(Debug, PartialEq, Eq)]
pub struct Instruction {
    /// The address of the program to invoke.
    pub program_id: Pubkey,
    /// The accounts, in the order the program expects them.
    pub accounts: Vec<AccountMeta>,
    /// The payload, which this engine does not interpret.
    pub data: Vec<u8>,
}

/// An instruction as a mathematical value.
pub struct InstructionView {
    pub program_id: Pubkey,
    pub accounts: Seq<AccountMeta>,
    pub data: Seq<u8>,
}

impl View for Instruction {
    type V = InstructionView;

    open spec fn view(&self) -> InstructionView {
        InstructionView { program_id: self.program_id, accounts: self.accounts@, data: self.data@ }
    }
}

/// The payload of the system program's transfer instruction for a given
/// amount, twelve bytes: the number of the instruction, 2, as four bytes, and
/// the amount as eight, each with the low byte first.
pub open spec fn system_transfer_data(lamports: u64) -> Seq<u8> {
    seq![
        2u8,
        0u8,
        0u8,
        0u8,
        (lamports % 0x100) as u8,
        (lamports / 0x100 % 0x100) as u8,
        (lamports / 0x1_0000 % 0x100) as u8,
        (lamports / 0x100_0000 % 0x100) as u8,
        (lamports / 0x1_0000_0000 % 0x100) as u8,
        (lamports / 0x100_0000_0000 % 0x100) as u8,
        (lamports / 0x1_0000_0000_0000 % 0x100) as u8,
        (lamports / 0x100_0000_0000_0000 % 0x100) as u8,
    ]
}

/// The accounts of a transfer of native currency: the payer, who signs, and
/// the payee; both are written to.
pub open spec fn system_transfer_accounts(from: Pubkey, to: Pubkey) -> Seq<AccountMeta> {
    seq![
        AccountMeta { pubkey: from, is_signer: true, is_writable: true },
        AccountMeta { pubkey: to, is_signer: false, is_writable: true },
    ]
}

/// Whether `ix` is the instruction that asks the system program, whose
/// address is 32 zero bytes, to move `lamports` from `from` to `to`.
pub open spec fn is_system_transfer(
    ix: InstructionView,
    from: Pubkey,
    to: Pubkey,
    lamports: u64,
) -> bool {
    &&& ix.program_id@ == zero_bytes()
    &&& ix.accounts == system_transfer_accounts(from, to)
    &&& ix.data == system_transfer_data(lamports)
}

/// Builds a transfer of native currency with `instruction::transfer` of
/// `solana_system_interface`, which `anchor_lang` hands on as
/// `solana_program::system_instruction::transfer`, and copies the result field
/// by field. Trusted, as that function's source shows it: the program is the
/// system program, whose address is 32 zero bytes; the accounts are the payer
/// as a writable signer and then the payee as writable; the payload is what
/// `bincode::serialize` writes for `SystemInstruction::Transfer`, the index of
/// that variant, 2, as a 32-bit number and the amount as a 64-bit number, both
/// little-endian.
#[verifier::external_body]
pub(crate) fn system_transfer(from: &Pubkey, to: &Pubkey, lamports: u64) -> (ix: Instruction)
    ensures
        ix.program_id@ == zero_bytes(),
        ix.accounts@ == system_transfer_accounts(*from, *to),
        ix.data@ == system_transfer_data(lamports),
{
    let from_key = anchor_lang::solana_program::pubkey::Pubkey::new_from_array(from.bytes);
    let to_key = anchor_lang::solana_program::pubkey::Pubkey::new_from_array(to.bytes);
    let ix = anchor_lang::solana_program::system_instruction::transfer(&from_key, &to_key, lamports);
    let accounts = ix.accounts.iter().map(
        |m| AccountMeta {
            pubkey: Pubkey { bytes: m.pubkey.to_bytes() },
            is_signer: m.is_signer,
            is_writable: m.is_writable,
        },
    ).collect();
    Instruction { program_id: Pubkey { bytes: ix.program_id.to_bytes() }, accounts, data: ix.data }
}

} // verus!
