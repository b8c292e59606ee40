//! The decision core of the handler: given the account references and the
//! raw payload of one invocation, either the single transfer order to
//! delegate to the host ledger, or the error that rejects the invocation.

use vstd::prelude::*;
use crate::codec::{decode_amount, le_u64_of};
use solana_program::program_error::ProgramError;

verus! {

/// One account reference as the handler sees it: the account's on-ledger
/// address and whether the account signed the enclosing transaction.
#[derive(Clone, Copy, Debug, PartialEq, Eq)]
pub struct AccountRef {
    pub address: [u8; 32],
    pub is_signer: bool,
}

/// The single delegated call a valid invocation asks the host ledger for:
/// move `amount` of the smallest currency unit from the account at
/// `source` to the account at `destination`.
#[derive(Clone, Copy, Debug, PartialEq, Eq)]
pub struct TransferOrder {
    pub source: [u8; 32],
    pub destination: [u8; 32],
    pub amount: u64,
}

/// Why an invocation was rejected. Every failure aborts the invocation
/// before, or instead of, the one delegated transfer: the handler mutates
/// nothing of its own.
#[derive(Debug, PartialEq, Eq)]
pub enum TransferError {
    /// Fewer than two account references were supplied.
    AccountResolution,
    /// The source account (position 0) did not sign the transaction.
    MissingSignature,
    /// The payload is not exactly eight bytes.
    InvalidPayload,
    /// The host ledger rejected the delegated transfer; its error is
    /// carried through unchanged, neither inspected nor translated.
    DelegatedTransfer(ProgramError),
}

/// What one invocation decides, as a function of its arguments alone: the
/// checks run in a fixed order — account resolution, then the source's
/// signature, then the payload's width — and a fully valid invocation
/// orders exactly one transfer, from the first account's address to the
/// second's, of the payload's little-endian amount.
pub open spec fn handle_spec(accounts: Seq<AccountRef>, payload: Seq<u8>) -> Result<
    TransferOrder,
    TransferError,
> {
    if accounts.len() < 2 {
        Err(TransferError::AccountResolution)
    } else if !accounts[0].is_signer {
        Err(TransferError::MissingSignature)
    } else if payload.len() != 8 {
        Err(TransferError::InvalidPayload)
    } else {
        Ok(
            TransferOrder {
                source: accounts[0].address,
                destination: accounts[1].address,
                amount: le_u64_of(payload) as u64,
            },
        )
    }
}

/// The shared validation pipeline, over plain values: the number of
/// account references supplied, the source's signer flag as the host
/// reports it, and the raw payload. Returns the decoded amount of a valid
/// request, or the error that rejects it.
pub fn validate_request(n_accounts: usize, source_is_signer: bool, payload: &[u8]) -> (r: Result<
    u64,
    TransferError,
>)
    ensures
        n_accounts < 2 ==> r == Err::<u64, TransferError>(TransferError::AccountResolution),
        n_accounts >= 2 && !source_is_signer ==> r == Err::<u64, TransferError>(
            TransferError::MissingSignature,
        ),
        n_accounts >= 2 && source_is_signer && payload@.len() != 8 ==> r == Err::<
            u64,
            TransferError,
        >(TransferError::InvalidPayload),
        n_accounts >= 2 && source_is_signer && payload@.len() == 8 ==> r == Ok::<
            u64,
            TransferError,
        >((le_u64_of(payload@) as u64)),
{
    if n_accounts < 2 {
        return Err(TransferError::AccountResolution);
    }
    if !source_is_signer {
        return Err(TransferError::MissingSignature);
    }
    if payload.len() != 8 {
        return Err(TransferError::InvalidPayload);
    }
    Ok(decode_amount(payload))
}

/// Validate one invocation and produce its transfer order. This is the
/// whole decision of the handler over plain values; the program identity
/// is received from the host but plays no part in it.
pub fn handle(_program_id: &[u8; 32], accounts: &[AccountRef], payload: &[u8]) -> (r: Result<
    TransferOrder,
    TransferError,
>)
    ensures
        r == handle_spec(accounts@, payload@),
{
    if accounts.len() < 2 {
        return Err(TransferError::AccountResolution);
    }
    let source = *vstd::slice::slice_index_get(accounts, 0);
    let destination = *vstd::slice::slice_index_get(accounts, 1);
    match validate_request(accounts.len(), source.is_signer, payload) {
        Ok(amount) => Ok(
            TransferOrder { source: source.address, destination: destination.address, amount },
        ),
        Err(e) => Err(e),
    }
}

/// Any invocation that supplies fewer than two account references is
/// rejected as an account-resolution failure, whatever the payload holds.
pub proof fn lemma_short_account_list_rejected(accounts: Seq<AccountRef>, payload: Seq<u8>)
    requires
        accounts.len() < 2,
    ensures
        handle_spec(accounts, payload) == Err::<TransferOrder, TransferError>(
            TransferError::AccountResolution,
        ),
{
}

/// If the source account — position 0 of a resolvable account list — did
/// not sign the transaction, the invocation is rejected as a missing
/// signature, even with a well-formed eight-byte payload.
pub proof fn lemma_unsigned_source_rejected(accounts: Seq<AccountRef>, payload: Seq<u8>)
    requires
        accounts.len() >= 2,
        !accounts[0].is_signer,
    ensures
        handle_spec(accounts, payload) == Err::<TransferOrder, TransferError>(
            TransferError::MissingSignature,
        ),
{
}

/// A payload that is not exactly eight bytes wide is rejected as invalid,
/// regardless of the accounts' contents beyond what the earlier checks
/// read: the addresses, and everything about the destination, play no
/// part. (Account resolution and the source's signature are checked
/// first, so this holds of invocations that pass those two checks.)
pub proof fn lemma_invalid_payload_rejected(accounts: Seq<AccountRef>, payload: Seq<u8>)
    requires
        accounts.len() >= 2,
        accounts[0].is_signer,
        payload.len() != 8,
    ensures
        handle_spec(accounts, payload) == Err::<TransferOrder, TransferError>(
            TransferError::InvalidPayload,
        ),
{
}

/// A fully valid invocation — a signing source, a destination, an
/// eight-byte payload — orders exactly one delegated transfer, and its
/// arguments are pinned: from the first account's address to the second
/// account's address, of the payload's little-endian amount.
pub proof fn lemma_valid_invocation_orders_transfer(accounts: Seq<AccountRef>, payload: Seq<u8>)
    requires
        accounts.len() >= 2,
        accounts[0].is_signer,
        payload.len() == 8,
    ensures
        handle_spec(accounts, payload) == Ok::<TransferOrder, TransferError>(
            TransferOrder {
                source: accounts[0].address,
                destination: accounts[1].address,
                amount: le_u64_of(payload) as u64,
            },
        ),
{
}

/// Invocations are not idempotent, and nothing suppresses a repeat: the
/// handler keeps no state, so the outcome is a function of the arguments
/// alone. Two invocations with identical, valid arguments — `first` and
/// `second` being their results, each equal to `handle_spec` by the
/// contract of [`handle`] — both order a transfer, and the same one: the
/// second issues a second delegated transfer, judged independently by the
/// host.
pub proof fn lemma_repeat_invocation_orders_again(
    accounts: Seq<AccountRef>,
    payload: Seq<u8>,
    first: Result<TransferOrder, TransferError>,
    second: Result<TransferOrder, TransferError>,
)
    requires
        accounts.len() >= 2,
        accounts[0].is_signer,
        payload.len() == 8,
        first == handle_spec(accounts, payload),
        second == handle_spec(accounts, payload),
    ensures
        first is Ok,
        second is Ok,
        first == second,
{
}

} // verus!
