use anchor_lang::prelude::Pubkey;
use cryptid::accounts::{resolve_by_index, AllAccounts, ExecuteTransactionAccounts, ProposeTransaction, EXECUTE_RESERVED_ACCOUNTS};
use cryptid::codec::{AbbreviatedAccountMeta, AbbreviatedInstructionData, AccountMeta, AccountMetaProps, Instruction};
use cryptid::error::{CryptidError, TransactionState};
use cryptid::identity::{verify_keys, AccountState, CryptidAccount, IdentityAccountState, IsGenerative};
use cryptid::key::Key;
use cryptid::transaction::{approve_execution, direct_execute, execute_transaction, propose_transaction, TransactionAccount};

fn key(n: u8) -> Key {
    Key::new([n; 32])
}

fn system() -> Key {
    Key::new([0; 32])
}

const INDEX: u32 = 7;

/// A real identity address for `did` under program `key(9)`, with its bump.
fn derived(did: Key) -> (Key, u8) {
    let program = Pubkey::new_from_array(key(9).bytes);
    let did_program = key(8).bytes;
    let (address, bump) = Pubkey::find_program_address(
        &[b"cryptid_account", &did_program, &did.bytes, &INDEX.to_le_bytes()],
        &program,
    );
    (Key::new(address.to_bytes()), bump)
}

fn identity(did: Key, lamports: u64, owner: Key) -> CryptidAccount {
    let (address, bump) = derived(did);
    let account = AccountState { key: address, lamports, owner };
    CryptidAccount::try_from(&account, &key(9), &key(8), &did, INDEX, bump).unwrap()
}

fn propose_ctx(cryptid_account: Key, did: Key, remaining: Vec<Key>) -> ProposeTransaction {
    ProposeTransaction {
        cryptid_account,
        did,
        did_program: key(8),
        authority: key(30),
        remaining_accounts: remaining,
    }
}

fn execute_ctx(cryptid_account: Key, did: Key, signer: Key, execution: Vec<Key>) -> ExecuteTransactionAccounts {
    ExecuteTransactionAccounts {
        cryptid_account,
        did,
        did_program: key(8),
        signer,
        execution_accounts: execution,
    }
}

/// One instruction calling the program at index `program` on the account at `index`.
fn one_instruction(program: u8, index: u8, meta: u8) -> Vec<AbbreviatedInstructionData> {
    vec![AbbreviatedInstructionData {
        program_id: program,
        accounts: vec![AbbreviatedAccountMeta { key: index, meta }],
        data: vec![1, 2, 3],
    }]
}

#[test]
fn propose_execute_then_execute_again_fails() {
    let did = key(2);
    let id = identity(did, 0, system());
    let trailing = key(40);
    let signer = key(31);
    let ctx = propose_ctx(id.address(), did, vec![trailing]);
    let mut record = propose_transaction(&ctx, &id, vec![signer], one_instruction(4, 4, 3)).unwrap();
    assert_eq!(record.state, TransactionState::Ready);
    assert_eq!(record.accounts, vec![trailing]);
    assert_eq!(record.cryptid_account, id.address());
    assert!(record.approved_middleware.is_none());

    let ectx = execute_ctx(id.address(), did, signer, vec![trailing]);
    let mut held: u64 = 500;
    let mut recipient: u64 = 70;
    let plan = execute_transaction::<()>(&mut record, &id, &ectx, Ok(true), None, &mut held, &mut recipient).unwrap();
    assert_eq!(plan.len(), 1);
    assert_eq!(plan[0].instruction.program_id, trailing);
    assert_eq!(plan[0].instruction.accounts, vec![AccountMeta { pubkey: trailing, is_signer: true, is_writable: true }]);
    assert_eq!(plan[0].instruction.data, vec![1, 2, 3]);
    assert_eq!(plan[0].account_positions, vec![4]);
    assert!(!plan[0].signed);
    assert_eq!(record.state, TransactionState::Executed);
    assert_eq!(held, 0);
    assert_eq!(recipient, 570);

    let again = execute_transaction::<()>(&mut record, &id, &ectx, Ok(true), None, &mut held, &mut recipient);
    assert_eq!(
        again.unwrap_err(),
        CryptidError::InvalidTransactionState { expected: TransactionState::Ready, found: TransactionState::Executed }
    );
    assert_eq!(held, 0);
    assert_eq!(recipient, 570);
}

#[test]
fn propose_with_index_past_trailing_accounts_fails() {
    let did = key(2);
    let id = identity(did, 0, system());
    let ctx = propose_ctx(id.address(), did, vec![key(40)]);
    let r = propose_transaction(&ctx, &id, vec![key(31)], one_instruction(4, 5, 0));
    assert_eq!(r.unwrap_err(), CryptidError::IndexOutOfRange);
}

#[test]
fn reserved_account_count_is_four() {
    assert_eq!(EXECUTE_RESERVED_ACCOUNTS, 4);
}

#[test]
fn propose_for_another_identity_fails() {
    let did = key(2);
    let id = identity(did, 0, system());
    let ctx = propose_ctx(key(77), did, vec![]);
    let r = propose_transaction(&ctx, &id, vec![], vec![]);
    assert_eq!(r.unwrap_err(), CryptidError::InvalidAccount { account: key(77), expected: id.address() });
}

fn ready_record(id: &CryptidAccount, did: Key, signer: Key, ixs: Vec<AbbreviatedInstructionData>) -> TransactionAccount {
    let ctx = propose_ctx(id.address(), did, vec![key(40), key(41)]);
    propose_transaction(&ctx, id, vec![signer], ixs).unwrap()
}

#[test]
fn execute_by_signer_outside_set_fails() {
    let did = key(2);
    let id = identity(did, 0, system());
    let mut record = ready_record(&id, did, key(31), one_instruction(4, 5, 1));
    let ectx = execute_ctx(id.address(), did, key(32), vec![key(40), key(41)]);
    let (mut held, mut to) = (10u64, 0u64);
    let r = execute_transaction::<()>(&mut record, &id, &ectx, Ok(true), None, &mut held, &mut to);
    assert_eq!(r.unwrap_err(), CryptidError::KeyCannotChangeTransaction { key: key(32) });
    assert_eq!(record.state, TransactionState::Ready);
    assert_eq!((held, to), (10, 0));
}

#[test]
fn execute_without_authority_fails() {
    let did = key(2);
    let id = identity(did, 0, system());
    let ectx = execute_ctx(id.address(), did, key(31), vec![key(40), key(41)]);
    for answer in [Ok(false), Err("resolution failed")] {
        let mut record = ready_record(&id, did, key(31), one_instruction(4, 5, 1));
        let (mut held, mut to) = (10u64, 0u64);
        let r = execute_transaction(&mut record, &id, &ectx, answer, None, &mut held, &mut to);
        assert_eq!(r.unwrap_err(), CryptidError::KeyMustBeSigner);
        assert_eq!(record.state, TransactionState::Ready);
    }
}

#[test]
fn execute_with_wrong_identity_fails() {
    let did = key(2);
    let id = identity(did, 0, system());
    let mut record = ready_record(&id, did, key(31), vec![]);
    let ectx = execute_ctx(key(66), did, key(31), vec![]);
    let (mut held, mut to) = (1u64, 1u64);
    let r = execute_transaction::<()>(&mut record, &id, &ectx, Ok(true), None, &mut held, &mut to);
    assert_eq!(r.unwrap_err(), CryptidError::InvalidAccount { account: key(66), expected: id.address() });
}

#[test]
fn execute_with_stored_index_out_of_range_changes_nothing() {
    let did = key(2);
    let id = identity(did, 0, system());
    let mut record = ready_record(&id, did, key(31), one_instruction(4, 5, 1));
    record.instructions[0].accounts[0].key = 6;
    let ectx = execute_ctx(id.address(), did, key(31), vec![key(40), key(41)]);
    let (mut held, mut to) = (10u64, 3u64);
    let r = execute_transaction::<()>(&mut record, &id, &ectx, Ok(true), None, &mut held, &mut to);
    assert_eq!(r.unwrap_err(), CryptidError::IndexOutOfRange);
    assert_eq!(record.state, TransactionState::Ready);
    assert_eq!((held, to), (10, 3));
}

#[test]
fn execute_with_missing_execution_account_fails() {
    let did = key(2);
    let id = identity(did, 0, system());
    let mut record = ready_record(&id, did, key(31), one_instruction(4, 5, 1));
    let ectx = execute_ctx(id.address(), did, key(31), vec![key(40)]);
    let (mut held, mut to) = (10u64, 3u64);
    let r = execute_transaction::<()>(&mut record, &id, &ectx, Ok(true), None, &mut held, &mut to);
    assert_eq!(r.unwrap_err(), CryptidError::AccountNotSupplied { key: key(41) });
}

#[test]
fn execute_with_bad_mask_fails() {
    let did = key(2);
    let id = identity(did, 0, system());
    let mut record = ready_record(&id, did, key(31), one_instruction(4, 5, 4));
    let ectx = execute_ctx(id.address(), did, key(31), vec![key(40), key(41)]);
    let (mut held, mut to) = (10u64, 3u64);
    let r = execute_transaction::<()>(&mut record, &id, &ectx, Ok(true), None, &mut held, &mut to);
    assert_eq!(r.unwrap_err(), CryptidError::InvalidAccountMeta { meta: 4 });
}

#[test]
fn execute_overflowing_recipient_fails() {
    let did = key(2);
    let id = identity(did, 0, system());
    let mut record = ready_record(&id, did, key(31), vec![]);
    let ectx = execute_ctx(id.address(), did, key(31), vec![]);
    let (mut held, mut to) = (2u64, u64::MAX - 1);
    let r = execute_transaction::<()>(&mut record, &id, &ectx, Ok(true), None, &mut held, &mut to);
    assert_eq!(r.unwrap_err(), CryptidError::BalanceOverflow);
    assert_eq!((held, to), (2, u64::MAX - 1));
}

#[test]
fn identity_as_signer_makes_signed_call() {
    let did = key(2);
    let id = identity(did, 0, system());
    let mut record = ready_record(&id, did, key(31), one_instruction(4, 0, 1));
    let ectx = execute_ctx(id.address(), did, key(31), vec![key(40), key(41)]);
    let (mut held, mut to) = (5u64, 0u64);
    let plan = execute_transaction::<()>(&mut record, &id, &ectx, Ok(true), None, &mut held, &mut to).unwrap();
    assert!(plan[0].signed);
    assert_eq!(plan[0].account_positions, vec![0]);
}

#[test]
fn approved_middleware_must_route_execution() {
    let did = key(2);
    let id = identity(did, 0, system());
    let mut record = ready_record(&id, did, key(31), vec![]);
    approve_execution(&mut record, key(50)).unwrap();
    assert_eq!(record.approved_middleware, Some(key(50)));
    let ectx = execute_ctx(id.address(), did, key(31), vec![]);
    let (mut held, mut to) = (5u64, 0u64);
    let r = execute_transaction::<()>(&mut record, &id, &ectx, Ok(true), None, &mut held, &mut to);
    assert_eq!(r.unwrap_err(), CryptidError::IncorrectMiddleware);
    let r = execute_transaction::<()>(&mut record, &id, &ectx, Ok(true), Some(key(51)), &mut held, &mut to);
    assert_eq!(r.unwrap_err(), CryptidError::IncorrectMiddleware);
    let r = execute_transaction::<()>(&mut record, &id, &ectx, Ok(true), Some(key(50)), &mut held, &mut to);
    assert!(r.is_ok());
    assert_eq!((held, to), (0, 5));
    let again = approve_execution(&mut record, key(50));
    assert_eq!(
        again.unwrap_err(),
        CryptidError::InvalidTransactionState { expected: TransactionState::Ready, found: TransactionState::Executed }
    );
}

#[test]
fn direct_execute_resolves_against_supplied_accounts() {
    let did = key(2);
    let id = identity(did, 0, system());
    let ctx = execute_ctx(id.address(), did, key(31), vec![key(40)]);
    let plan = direct_execute::<()>(&id, &ctx, &one_instruction(4, 3, 2), Ok(true)).unwrap();
    assert_eq!(plan[0].instruction.program_id, key(40));
    assert_eq!(plan[0].instruction.accounts, vec![AccountMeta { pubkey: key(31), is_signer: false, is_writable: true }]);
    assert_eq!(plan[0].account_positions, vec![3]);
    let r = direct_execute::<()>(&id, &ctx, &one_instruction(5, 3, 2), Ok(true));
    assert_eq!(r.unwrap_err(), CryptidError::IndexOutOfRange);
    let r = direct_execute::<()>(&id, &ctx, &one_instruction(4, 3, 2), Ok(false));
    assert_eq!(r.unwrap_err(), CryptidError::KeyMustBeSigner);
    let other = execute_ctx(key(66), did, key(31), vec![key(40)]);
    let r = direct_execute::<()>(&id, &other, &one_instruction(4, 3, 2), Ok(true));
    assert_eq!(r.unwrap_err(), CryptidError::InvalidAccount { account: key(66), expected: id.address() });
}

#[test]
fn generative_identity_is_accepted() {
    let did = key(2);
    let id = identity(did, 0, system());
    assert_eq!(id.state(), IdentityAccountState::Generative);
    assert_eq!(id.did(), did);
    let persisted = identity(did, 1_000, system());
    assert_eq!(persisted.state(), IdentityAccountState::Persisted);
    let owned = identity(did, 0, key(9));
    assert_eq!(owned.state(), IdentityAccountState::Persisted);
}

#[test]
fn identity_with_wrong_address_or_bump_is_refused() {
    let did = key(2);
    let (address, bump) = derived(did);
    let forged = AccountState { key: key(3), lamports: 0, owner: system() };
    let r = CryptidAccount::try_from(&forged, &key(9), &key(8), &did, INDEX, bump);
    assert_eq!(r.unwrap_err(), CryptidError::InvalidAccount { account: key(3), expected: address });
    let real = AccountState { key: address, lamports: 0, owner: system() };
    let r = CryptidAccount::try_from(&real, &key(9), &key(8), &did, INDEX + 1, bump);
    assert!(matches!(r, Err(CryptidError::InvalidAccount { .. })));
}

#[test]
fn generative_means_empty_and_system_owned() {
    assert!(AccountState { key: key(1), lamports: 0, owner: system() }.is_generative());
    assert!(!AccountState { key: key(1), lamports: 1, owner: system() }.is_generative());
    assert!(!AccountState { key: key(1), lamports: 0, owner: key(1) }.is_generative());
}

#[test]
fn authority_answer_maps_to_outcome() {
    assert_eq!(verify_keys::<()>(Ok(true)), Ok(()));
    assert_eq!(verify_keys::<()>(Ok(false)), Err(CryptidError::KeyMustBeSigner));
    assert_eq!(verify_keys(Err("malformed")), Err(CryptidError::KeyMustBeSigner));
}

#[test]
fn resolve_by_index_in_and_out_of_range() {
    let accounts = vec![key(1), key(2), key(3)];
    assert_eq!(resolve_by_index(&[2, 0, 2], &accounts).unwrap(), vec![key(3), key(1), key(3)]);
    assert_eq!(resolve_by_index(&[0, 3], &accounts).unwrap_err(), CryptidError::IndexOutOfRange);
    assert_eq!(resolve_by_index(&[], &accounts).unwrap(), Vec::<Key>::new());
}

#[test]
fn propose_accounts_are_indexed_after_fixed_ones() {
    let ctx = propose_ctx(key(1), key(2), vec![key(40), key(41)]);
    assert_eq!(ctx.all_accounts(), vec![key(1), key(2), key(8), key(30), key(40), key(41)]);
    assert_eq!(ctx.get_accounts_by_indexes(&[5, 1]).unwrap(), vec![key(41), key(2)]);
    assert_eq!(ctx.get_accounts_by_indexes(&[6]).unwrap_err(), CryptidError::IndexOutOfRange);
    let ectx = execute_ctx(key(1), key(2), key(31), vec![key(40)]);
    assert_eq!(ectx.all_accounts(), vec![key(1), key(2), key(8), key(31), key(40)]);
}

#[test]
fn encoded_sizes() {
    assert_eq!(AccountMetaProps::calculate_size(), 1);
    assert_eq!(AbbreviatedAccountMeta::calculate_size(), 2);
    assert_eq!(AbbreviatedInstructionData::calculate_size(3, 10), 25);
    assert_eq!(one_instruction(0, 0, 0)[0].size(), 14);
}

#[test]
fn permission_bits() {
    assert_eq!(AccountMetaProps::new(false, false).bits(), 0);
    assert_eq!(AccountMetaProps::new(true, false).bits(), 1);
    assert_eq!(AccountMetaProps::new(false, true).bits(), 2);
    assert_eq!(AccountMetaProps::new(true, true).bits(), 3);
    assert_eq!(AccountMetaProps::from_bits(2), Some(AccountMetaProps::new(false, true)));
    assert_eq!(AccountMetaProps::from_bits(4), None);
}

#[test]
fn account_meta_encodes_by_first_position() {
    let accounts = vec![key(5), key(6), key(5)];
    let meta = AccountMeta { pubkey: key(5), is_signer: true, is_writable: false };
    let enc = AbbreviatedAccountMeta::from_solana_account_meta(meta, &accounts).unwrap();
    assert_eq!(enc, AbbreviatedAccountMeta { key: 0, meta: 1 });
    assert_eq!(enc.into_solana_account_meta(&accounts), meta);
    let missing = AccountMeta { pubkey: key(7), is_signer: false, is_writable: false };
    assert_eq!(
        AbbreviatedAccountMeta::from_solana_account_meta(missing, &accounts).unwrap_err(),
        CryptidError::UnknownAccount { key: key(7) }
    );
}

#[test]
fn instruction_round_trip() {
    let accounts = vec![key(10), key(11), key(12)];
    let ix = Instruction {
        program_id: key(12),
        accounts: vec![
            AccountMeta { pubkey: key(11), is_signer: true, is_writable: true },
            AccountMeta { pubkey: key(10), is_signer: false, is_writable: true },
        ],
        data: vec![9, 8, 7],
    };
    let enc = AbbreviatedInstructionData::from_instruction(&ix, &accounts).unwrap();
    assert_eq!(enc.program_id, 2);
    assert_eq!(enc.accounts, vec![AbbreviatedAccountMeta { key: 1, meta: 3 }, AbbreviatedAccountMeta { key: 0, meta: 2 }]);
    let dec = enc.into_instruction(&accounts).unwrap();
    assert_eq!(dec.program_id, ix.program_id);
    assert_eq!(dec.accounts, ix.accounts);
    assert_eq!(dec.data, ix.data);
    let short = vec![key(10), key(11)];
    assert_eq!(enc.into_instruction(&short).unwrap_err(), CryptidError::IndexOutOfRange);
    assert_eq!(
        AbbreviatedInstructionData::from_instruction(&ix, &short).unwrap_err(),
        CryptidError::UnknownAccount { key: key(12) }
    );
}

#[test]
fn authority_is_checked_before_anything_else() {
    let did = key(2);
    let id = identity(did, 0, system());
    let mut record = ready_record(&id, did, key(31), vec![]);
    record.state = TransactionState::Executed;
    let ectx = execute_ctx(key(66), key(3), key(32), vec![]);
    let (mut held, mut to) = (10u64, 0u64);
    let r = execute_transaction::<()>(&mut record, &id, &ectx, Ok(false), None, &mut held, &mut to);
    assert_eq!(r.unwrap_err(), CryptidError::KeyMustBeSigner);
    assert_eq!((held, to), (10, 0));
}

#[test]
fn execute_for_record_of_another_did_fails() {
    let did = key(2);
    let other_did = key(3);
    let id = identity(did, 0, system());
    let other = identity(other_did, 0, system());
    let mut record = ready_record(&id, did, key(31), vec![]);
    // The signer is an authority of `other_did` and names its identity account.
    let ectx = execute_ctx(other.address(), other_did, key(31), vec![]);
    let (mut held, mut to) = (10u64, 0u64);
    let r = execute_transaction::<()>(&mut record, &other, &ectx, Ok(true), None, &mut held, &mut to);
    assert_eq!(r.unwrap_err(), CryptidError::InvalidAccount { account: other_did, expected: did });
    assert_eq!(record.state, TransactionState::Ready);
    assert_eq!((held, to), (10, 0));
}

#[test]
fn execute_with_identity_of_another_did_fails() {
    let did = key(2);
    let id = identity(did, 0, system());
    let other = identity(key(3), 0, system());
    let mut record = ready_record(&id, did, key(31), vec![]);
    let ectx = execute_ctx(id.address(), did, key(31), vec![]);
    let (mut held, mut to) = (10u64, 0u64);
    let r = execute_transaction::<()>(&mut record, &other, &ectx, Ok(true), None, &mut held, &mut to);
    assert_eq!(r.unwrap_err(), CryptidError::InvalidAccount { account: id.address(), expected: other.address() });
    assert_eq!(record.state, TransactionState::Ready);
}
