//! The entry point over the host's own types: resolve the two account
//! references, run the shared validation, and delegate the one transfer
//! to the host ledger.

use vstd::prelude::*;
use crate::host;
use crate::transfer::{validate_request, TransferError};
use solana_program::account_info::AccountInfo;
use solana_program::program_error::ProgramError;
use solana_program::pubkey::Pubkey;

verus! {

/// Map the host's verdict on the delegated transfer: success passes
/// through, and any rejection is carried back unchanged as a
/// delegated-transfer failure — neither inspected, nor translated, nor
/// retried.
pub fn settle_delegated(outcome: Result<(), ProgramError>) -> (r: Result<(), TransferError>)
    ensures
        outcome is Ok ==> r is Ok,
        outcome matches Err(e) ==> r == Err::<(), TransferError>(TransferError::DelegatedTransfer(e)),
{
    match outcome {
        Ok(()) => Ok(()),
        Err(e) => Err(TransferError::DelegatedTransfer(e)),
    }
}

/// Process one invocation as the host delivers it: account handles and a
/// raw payload. Each rejection of the handler's own holds if and only if
/// its condition does, in the fixed check order — account resolution,
/// then the source's signer flag (named, since it is a plain field of the
/// opaque handle), then the payload's width — so a signed, well-formed
/// request ends in success or in the host's own rejection of the one
/// delegated transfer, never in silence. The instruction handed to the
/// host is pinned at the boundary: built from the two accounts' addresses
/// and the decoded amount alone.
pub fn process_instruction(
    _program_id: &Pubkey,
    accounts: &[AccountInfo<'_>],
    instruction_data: &[u8],
) -> (r: Result<(), TransferError>)
    ensures
        accounts@.len() < 2 <==> r == Err::<(), TransferError>(TransferError::AccountResolution),
        r == Err::<(), TransferError>(TransferError::MissingSignature) <==> accounts@.len() >= 2
            && !host::signer_flag_of(accounts@[0]),
        r == Err::<(), TransferError>(TransferError::InvalidPayload) <==> accounts@.len() >= 2
            && host::signer_flag_of(accounts@[0]) && instruction_data@.len() != 8,
        r is Ok ==> accounts@.len() >= 2 && host::signer_flag_of(accounts@[0])
            && instruction_data@.len() == 8,
        (r matches Err(TransferError::DelegatedTransfer(_))) ==> accounts@.len() >= 2
            && host::signer_flag_of(accounts@[0]) && instruction_data@.len() == 8,
{
    if accounts.len() < 2 {
        return Err(TransferError::AccountResolution);
    }
    let source = vstd::slice::slice_index_get(accounts, 0);
    let destination = vstd::slice::slice_index_get(accounts, 1);
    let amount = match validate_request(
        accounts.len(),
        host::account_is_signer(source),
        instruction_data,
    ) {
        Ok(amount) => amount,
        Err(e) => { return Err(e); },
    };
    let instruction = host::transfer_instruction(
        host::account_key(source),
        host::account_key(destination),
        amount,
    );
    settle_delegated(host::invoke_transfer(&instruction, source, destination))
}

} // verus!
