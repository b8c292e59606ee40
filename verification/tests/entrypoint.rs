//! The entry point over the host's own account handles, and the
//! pass-through of the host's verdict on the delegated transfer.

use native_transfer::entry::{process_instruction, settle_delegated};
use native_transfer::transfer::TransferError;
use solana_program::account_info::AccountInfo;
use solana_program::program_error::ProgramError;
use solana_program::pubkey::Pubkey;

struct AccountFixture {
    key: Pubkey,
    owner: Pubkey,
    lamports: u64,
    data: Vec<u8>,
}

impl AccountFixture {
    fn new(key_byte: u8, lamports: u64) -> Self {
        AccountFixture {
            key: Pubkey::new_from_array([key_byte; 32]),
            owner: Pubkey::new_from_array([0; 32]),
            lamports,
            data: Vec::new(),
        }
    }

    fn info(&mut self, is_signer: bool) -> AccountInfo<'_> {
        AccountInfo::new(
            &self.key,
            is_signer,
            true,
            &mut self.lamports,
            &mut self.data,
            &self.owner,
            false,
            0,
        )
    }
}

#[test]
fn process_rejects_empty_account_list() {
    let program_id = Pubkey::new_from_array([9; 32]);
    let r = process_instruction(&program_id, &[], &[100, 0, 0, 0, 0, 0, 0, 0]);
    assert_eq!(r, Err(TransferError::AccountResolution));
}

#[test]
fn process_rejects_single_account() {
    let program_id = Pubkey::new_from_array([9; 32]);
    let mut source = AccountFixture::new(1, 500);
    let accounts = [source.info(true)];
    let r = process_instruction(&program_id, &accounts, &[100, 0, 0, 0, 0, 0, 0, 0]);
    assert_eq!(r, Err(TransferError::AccountResolution));
}

#[test]
fn process_rejects_unsigned_source() {
    let program_id = Pubkey::new_from_array([9; 32]);
    let mut source = AccountFixture::new(1, 500);
    let mut destination = AccountFixture::new(2, 0);
    let accounts = [source.info(false), destination.info(false)];
    let r = process_instruction(&program_id, &accounts, &[100, 0, 0, 0, 0, 0, 0, 0]);
    assert_eq!(r, Err(TransferError::MissingSignature));
}

#[test]
fn process_rejects_misshapen_payload() {
    let program_id = Pubkey::new_from_array([9; 32]);
    let mut source = AccountFixture::new(1, 500);
    let mut destination = AccountFixture::new(2, 0);
    let accounts = [source.info(true), destination.info(false)];
    let r = process_instruction(&program_id, &accounts, &[100, 0, 0]);
    assert_eq!(r, Err(TransferError::InvalidPayload));
}

#[test]
fn process_valid_invocation_succeeds() {
    // Off-ledger, the host's invocation stub accepts every delegated call,
    // so a fully valid invocation runs the whole pipeline and succeeds.
    let program_id = Pubkey::new_from_array([9; 32]);
    let mut source = AccountFixture::new(1, 500);
    let mut destination = AccountFixture::new(2, 0);
    let accounts = [source.info(true), destination.info(false)];
    let r = process_instruction(&program_id, &accounts, &[100, 0, 0, 0, 0, 0, 0, 0]);
    assert_eq!(r, Ok(()));
}

#[test]
fn process_repeat_invocation_delegates_again() {
    let program_id = Pubkey::new_from_array([9; 32]);
    let mut source = AccountFixture::new(1, 500);
    let mut destination = AccountFixture::new(2, 0);
    let accounts = [source.info(true), destination.info(false)];
    let payload = [100, 0, 0, 0, 0, 0, 0, 0];
    assert_eq!(process_instruction(&program_id, &accounts, &payload), Ok(()));
    assert_eq!(process_instruction(&program_id, &accounts, &payload), Ok(()));
}

#[test]
fn delegated_success_passes_through() {
    assert_eq!(settle_delegated(Ok(())), Ok(()));
}

#[test]
fn delegated_rejection_carried_unchanged() {
    let r = settle_delegated(Err(ProgramError::InsufficientFunds));
    assert_eq!(
        r,
        Err(TransferError::DelegatedTransfer(ProgramError::InsufficientFunds))
    );
}

#[test]
fn delegated_custom_error_carried_unchanged() {
    let r = settle_delegated(Err(ProgramError::Custom(7)));
    assert_eq!(r, Err(TransferError::DelegatedTransfer(ProgramError::Custom(7))));
}
