//! The trusted boundary to the host ledger runtime. Everything in this
//! module is believed, not proved: the type declarations make the host's
//! opaque handles nameable, and each wrapper performs one call into the
//! host's crate. The host alone owns the balances, so nothing is promised
//! of the delegated call's outcome; the verified logic elsewhere takes
//! whatever comes back as an argument.

use vstd::prelude::*;
use solana_program::account_info::AccountInfo;
use solana_program::instruction::Instruction;
use solana_program::program_error::ProgramError;
use solana_program::pubkey::Pubkey;

verus! {

/// `solana_program::pubkey::Pubkey`: an on-ledger address. Opaque here;
/// the handler only passes addresses through, never reads them.
#[verifier::external_type_specification]
#[verifier::external_body]
pub struct ExPubkey(Pubkey);

/// `solana_program::account_info::AccountInfo`: the host's handle to one
/// ledger account, borrowed for the duration of a single invocation.
#[verifier::external_type_specification]
#[verifier::external_body]
pub struct ExAccountInfo<'a>(AccountInfo<'a>);

/// `solana_program::instruction::Instruction`: one instruction for the
/// host to execute, carried through unread.
#[verifier::external_type_specification]
#[verifier::external_body]
pub struct ExInstruction(Instruction);

/// `solana_program::program_error::ProgramError`: the host's error type,
/// carried through unread.
#[verifier::external_type_specification]
#[verifier::external_body]
pub struct ExProgramError(ProgramError);

/// The signer flag an account handle carries: a plain public field of the
/// value, the same on every read.
pub uninterp spec fn signer_flag_of(account: AccountInfo) -> bool;

/// The address an account handle carries: a plain public field of the
/// value, the same on every read.
pub uninterp spec fn key_of(account: AccountInfo) -> Pubkey;

/// The system program's transfer instruction for a given source address,
/// destination address and amount: a function of those three arguments
/// alone.
pub uninterp spec fn transfer_instr_of(from: Pubkey, to: Pubkey, lamports: u64) -> Instruction;

/// Relies on the public `is_signer` field of `AccountInfo`: whether this
/// account's key signed the enclosing transaction. The flag is a field of
/// the handle, so the read is named and handed to the verified logic as a
/// plain value.
#[verifier::external_body]
pub(crate) fn account_is_signer(account: &AccountInfo<'_>) -> (r: bool)
    ensures
        r == signer_flag_of(*account),
{
    account.is_signer
}

/// Relies on the public `key` field of `AccountInfo`: the account's
/// address, a field of the handle, passed through to the transfer
/// instruction unread.
#[verifier::external_body]
pub(crate) fn account_key<'a>(account: &AccountInfo<'a>) -> (r: &'a Pubkey)
    ensures
        *r == key_of(*account),
{
    account.key
}

/// Relies on `solana_program::system_instruction::transfer`: builds the
/// system program's instruction that moves `lamports` (the smallest
/// currency unit) from `from` to `to`, a function of those arguments
/// alone.
#[verifier::external_body]
pub(crate) fn transfer_instruction(from: &Pubkey, to: &Pubkey, lamports: u64) -> (r: Instruction)
    ensures
        r == transfer_instr_of(*from, *to, lamports),
{
    solana_program::system_instruction::transfer(from, to, lamports)
}

/// Relies on `solana_program::program::invoke`: one cross-program call
/// asking the host ledger to execute `instruction` over the two accounts.
/// The host alone decides the outcome (balances, account existence, its
/// own authorization rules), so nothing is promised of the result; the
/// caller states what holds whichever way it went.
#[verifier::external_body]
pub(crate) fn invoke_transfer<'a>(
    instruction: &Instruction,
    source: &AccountInfo<'a>,
    destination: &AccountInfo<'a>,
) -> Result<(), ProgramError> {
    solana_program::program::invoke(instruction, &[source.clone(), destination.clone()])
}

} // verus!
