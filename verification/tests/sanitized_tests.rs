use sanitized_transaction::address_loader::SimpleAddressLoader;
use sanitized_transaction::error::{AddressLoaderError, SanitizeError, TransactionError};
use sanitized_transaction::keys::{Pubkey, Signature};
use sanitized_transaction::legacy::{CompiledInstruction, Message, MessageHeader};
use sanitized_transaction::sanitized::{
    MessageHash, SanitizedTransaction, TransactionAccountLocks, MAX_TX_ACCOUNT_LOCKS,
};
use sanitized_transaction::sanitized_message::SanitizedMessage;
use sanitized_transaction::transaction::{
    sanitize_signatures_inner, SanitizedVersionedTransaction, Transaction, VersionedTransaction,
};
use sanitized_transaction::v0::{LoadedAddresses, MessageAddressTableLookup};
use sanitized_transaction::versioned::VersionedMessage;
use solana_keypair::Keypair;
use solana_signer::Signer;
use std::collections::HashSet;

fn key(n: u16) -> Pubkey {
    let mut bytes = [0u8; 32];
    bytes[0] = (n & 0xff) as u8;
    bytes[1] = (n >> 8) as u8;
    bytes[31] = 0xa5;
    Pubkey(bytes)
}

fn keys(from: u16, count: u16) -> Vec<Pubkey> {
    (from..from + count).map(key).collect()
}

fn own_key(address: &solana_pubkey::Pubkey) -> Pubkey {
    Pubkey(address.to_bytes())
}

fn own_message(message: &solana_message::legacy::Message) -> Message {
    Message {
        header: MessageHeader {
            num_required_signatures: message.header.num_required_signatures,
            num_readonly_signed_accounts: message.header.num_readonly_signed_accounts,
            num_readonly_unsigned_accounts: message.header.num_readonly_unsigned_accounts,
        },
        account_keys: message.account_keys.iter().map(own_key).collect(),
        recent_blockhash: sanitized_transaction::keys::Hash(message.recent_blockhash.to_bytes()),
        instructions: message
            .instructions
            .iter()
            .map(|ix| CompiledInstruction {
                program_id_index: ix.program_id_index,
                accounts: ix.accounts.clone(),
                data: ix.data.clone(),
            })
            .collect(),
    }
}

fn plain_message(signers: u8, readonly_signed: u8, readonly_unsigned: u8, account_keys: Vec<Pubkey>) -> Message {
    Message {
        header: MessageHeader {
            num_required_signatures: signers,
            num_readonly_signed_accounts: readonly_signed,
            num_readonly_unsigned_accounts: readonly_unsigned,
        },
        account_keys,
        recent_blockhash: sanitized_transaction::keys::Hash([7u8; 32]),
        instructions: vec![],
    }
}

fn v0_message(account_keys: Vec<Pubkey>, lookups: Vec<MessageAddressTableLookup>) -> sanitized_transaction::v0::Message {
    sanitized_transaction::v0::Message {
        header: MessageHeader {
            num_required_signatures: 1,
            num_readonly_signed_accounts: 0,
            num_readonly_unsigned_accounts: 1,
        },
        account_keys,
        recent_blockhash: sanitized_transaction::keys::Hash([9u8; 32]),
        instructions: vec![CompiledInstruction { program_id_index: 1, accounts: vec![0, 2, 3], data: vec![1, 2, 3] }],
        address_table_lookups: lookups,
    }
}

fn sanitized_with_keys(account_keys: Vec<Pubkey>) -> SanitizedTransaction {
    let message = SanitizedMessage::try_from_legacy_message(
        plain_message(1, 0, 0, account_keys),
        &HashSet::default(),
    )
    .unwrap();
    SanitizedTransaction::try_new_from_fields(
        message,
        sanitized_transaction::keys::Hash::default(),
        false,
        vec![Signature::default()],
    )
    .unwrap()
}

fn deref(list: &[&Pubkey]) -> Vec<Pubkey> {
    list.iter().map(|k| **k).collect()
}

#[test]
fn test_try_create_simple_vote_tx() {
    let bank_hash = solana_hash::Hash::default();
    let empty_key_set = HashSet::default();
    let vote_keypair = Keypair::new();
    let node_keypair = Keypair::new();
    let auth_keypair = Keypair::new();
    let votes = solana_vote_interface::state::Vote::new(vec![1, 2, 3], bank_hash);
    let vote_ix = solana_vote_interface::instruction::vote(
        &vote_keypair.pubkey(),
        &auth_keypair.pubkey(),
        votes,
    );
    let outside_message =
        solana_message::legacy::Message::new(&[vote_ix], Some(&node_keypair.pubkey()));
    assert_eq!(outside_message.header.num_required_signatures, 2);
    let message_data = outside_message.serialize();
    let mut signatures = vec![Signature::default(); 2];
    for keypair in [&node_keypair, &auth_keypair] {
        let position = outside_message
            .account_keys
            .iter()
            .position(|k| *k == keypair.pubkey())
            .unwrap();
        signatures[position] = Signature(*keypair.sign_message(&message_data).as_array());
    }
    let mut vote_tx = Transaction { signatures, message: own_message(&outside_message) };

    // single legacy vote ix, 2 signatures
    {
        let vote_transaction = SanitizedTransaction::try_create(
            VersionedTransaction::from_legacy(vote_tx.clone()),
            MessageHash::Compute,
            None,
            SimpleAddressLoader::Disabled,
            &empty_key_set,
        )
        .unwrap();
        assert!(vote_transaction.is_simple_vote_transaction());
        assert!(vote_transaction.verify().is_ok());
    }

    {
        // call side says it is not a vote
        let vote_transaction = SanitizedTransaction::try_create(
            VersionedTransaction::from_legacy(vote_tx.clone()),
            MessageHash::Compute,
            Some(false),
            SimpleAddressLoader::Disabled,
            &empty_key_set,
        )
        .unwrap();
        assert!(!vote_transaction.is_simple_vote_transaction());
    }

    // single legacy vote ix, 3 signatures
    vote_tx.signatures.push(Signature::default());
    vote_tx.message.header.num_required_signatures = 3;
    {
        let vote_transaction = SanitizedTransaction::try_create(
            VersionedTransaction::from_legacy(vote_tx.clone()),
            MessageHash::Compute,
            None,
            SimpleAddressLoader::Disabled,
            &empty_key_set,
        )
        .unwrap();
        assert!(!vote_transaction.is_simple_vote_transaction());
    }

    {
        // call site says it is simple vote
        let vote_transaction = SanitizedTransaction::try_create(
            VersionedTransaction::from_legacy(vote_tx),
            MessageHash::Compute,
            Some(true),
            SimpleAddressLoader::Disabled,
            &empty_key_set,
        )
        .unwrap();
        assert!(vote_transaction.is_simple_vote_transaction());
    }
}

#[test]
fn test_try_new_from_fields() {
    let legacy_message = SanitizedMessage::try_from_legacy_message(
        Message {
            header: MessageHeader {
                num_required_signatures: 2,
                num_readonly_signed_accounts: 1,
                num_readonly_unsigned_accounts: 1,
            },
            account_keys: vec![key(1), key(2), key(3)],
            ..Message::default()
        },
        &HashSet::default(),
    )
    .unwrap();

    for is_simple_vote_tx in [false, true] {
        // Not enough signatures
        assert!(SanitizedTransaction::try_new_from_fields(
            legacy_message.clone(),
            sanitized_transaction::keys::Hash([1u8; 32]),
            is_simple_vote_tx,
            vec![],
        )
        .is_err());
        // Too many signatures
        assert!(SanitizedTransaction::try_new_from_fields(
            legacy_message.clone(),
            sanitized_transaction::keys::Hash([2u8; 32]),
            is_simple_vote_tx,
            vec![Signature::default(), Signature::default(), Signature::default()],
        )
        .is_err());
        // Correct number of signatures.
        assert!(SanitizedTransaction::try_new_from_fields(
            legacy_message.clone(),
            sanitized_transaction::keys::Hash([3u8; 32]),
            is_simple_vote_tx,
            vec![Signature::default(), Signature::default()]
        )
        .is_ok());
    }
}

#[test]
fn signature_count_mismatch_is_a_sanitize_failure() {
    let message = SanitizedMessage::try_from_legacy_message(
        plain_message(2, 0, 0, keys(1, 4)),
        &HashSet::default(),
    )
    .unwrap();
    let hash = sanitized_transaction::keys::Hash([5u8; 32]);
    for count in [1usize, 3] {
        let r = SanitizedTransaction::try_new_from_fields(
            message.clone(),
            hash,
            false,
            vec![Signature::default(); count],
        );
        assert_eq!(r.err(), Some(TransactionError::SanitizeFailure));
    }
    let tx = SanitizedTransaction::try_new_from_fields(
        message.clone(),
        hash,
        true,
        vec![Signature([1u8; 64]), Signature([2u8; 64])],
    )
    .unwrap();
    assert_eq!(tx.signatures(), &[Signature([1u8; 64]), Signature([2u8; 64])]);
    assert_eq!(*tx.signature(), Signature([1u8; 64]));
    assert_eq!(*tx.message_hash(), hash);
    assert!(tx.is_simple_vote_transaction());
    assert_eq!(*tx.message(), message);
}

#[test]
fn signature_count_check_names_each_failure() {
    assert_eq!(sanitize_signatures_inner(2, 3, 1), Err(SanitizeError::IndexOutOfBounds));
    assert_eq!(sanitize_signatures_inner(2, 3, 3), Err(SanitizeError::InvalidValue));
    assert_eq!(sanitize_signatures_inner(4, 3, 4), Err(SanitizeError::IndexOutOfBounds));
    assert_eq!(sanitize_signatures_inner(2, 3, 2), Ok(()));
    assert_eq!(sanitize_signatures_inner(3, 3, 3), Ok(()));
}

#[test]
fn account_locks_partition_the_keys() {
    // two signers, the second read-only; four unsigned keys, the last two read-only
    let message = SanitizedMessage::try_from_legacy_message(
        plain_message(2, 1, 2, keys(1, 6)),
        &HashSet::default(),
    )
    .unwrap();
    let tx = SanitizedTransaction::try_new_from_fields(
        message,
        sanitized_transaction::keys::Hash::default(),
        false,
        vec![Signature::default(), Signature::default()],
    )
    .unwrap();
    let locks = tx.get_account_locks_unchecked();
    assert_eq!(deref(&locks.writable), vec![key(1), key(3), key(4)]);
    assert_eq!(deref(&locks.readonly), vec![key(2), key(5), key(6)]);
    assert_eq!(locks.writable.len() + locks.readonly.len(), 6);
    let checked = tx.get_account_locks(MAX_TX_ACCOUNT_LOCKS).unwrap();
    assert_eq!(checked, locks);
    assert_eq!(TransactionAccountLocks::default().writable.len(), 0);
    assert_eq!(TransactionAccountLocks::default().readonly.len(), 0);
}

#[test]
fn reserved_keys_and_called_programs_are_not_writable() {
    let mut message = plain_message(1, 0, 0, keys(1, 4));
    message.instructions = vec![CompiledInstruction { program_id_index: 2, accounts: vec![0, 1], data: vec![] }];
    let reserved: HashSet<Pubkey> = [key(2)].into_iter().collect();
    let sanitized = SanitizedMessage::try_from_legacy_message(message, &reserved).unwrap();
    assert!(sanitized.is_writable(0));
    assert!(!sanitized.is_writable(1)); // reserved
    assert!(!sanitized.is_writable(2)); // called as a program
    assert!(sanitized.is_writable(3));
    assert!(!sanitized.is_writable(4)); // no such key
    assert!(sanitized.is_signer(0));
    assert!(!sanitized.is_signer(1));
}

#[test]
fn lock_limit_boundary() {
    assert_eq!(MAX_TX_ACCOUNT_LOCKS, 128);
    let at_limit = sanitized_with_keys(keys(1, 128));
    assert_eq!(SanitizedTransaction::validate_account_locks(at_limit.message(), MAX_TX_ACCOUNT_LOCKS), Ok(()));
    assert!(at_limit.get_account_locks(MAX_TX_ACCOUNT_LOCKS).is_ok());
    let over_limit = sanitized_with_keys(keys(1, 129));
    assert_eq!(
        SanitizedTransaction::validate_account_locks(over_limit.message(), MAX_TX_ACCOUNT_LOCKS),
        Err(TransactionError::TooManyAccountLocks)
    );
    assert_eq!(
        over_limit.get_account_locks(MAX_TX_ACCOUNT_LOCKS).err(),
        Some(TransactionError::TooManyAccountLocks)
    );
    assert_eq!(SanitizedTransaction::validate_account_locks(over_limit.message(), 129), Ok(()));
    assert_eq!(
        SanitizedTransaction::validate_account_locks(over_limit.message(), 0),
        Err(TransactionError::TooManyAccountLocks)
    );
}

#[test]
fn duplicate_keys_are_rejected_in_any_order() {
    let orders = [
        vec![key(1), key(2), key(3), key(2)],
        vec![key(2), key(2), key(1), key(3)],
        vec![key(3), key(1), key(2), key(2)],
        vec![key(2), key(1), key(3), key(2)],
    ];
    for account_keys in orders {
        let tx = sanitized_with_keys(account_keys);
        assert!(tx.message().has_duplicates());
        assert_eq!(
            SanitizedTransaction::validate_account_locks(tx.message(), MAX_TX_ACCOUNT_LOCKS),
            Err(TransactionError::AccountLoadedTwice)
        );
        // the duplicate is reported before the limit
        assert_eq!(
            SanitizedTransaction::validate_account_locks(tx.message(), 2),
            Err(TransactionError::AccountLoadedTwice)
        );
        assert_eq!(tx.get_account_locks(128).err(), Some(TransactionError::AccountLoadedTwice));
        assert_eq!(tx.get_account_locks_unchecked().writable.len(), 4);
    }
    let distinct = sanitized_with_keys(vec![key(1), key(2), key(3)]);
    assert!(!distinct.message().has_duplicates());
    assert_eq!(SanitizedTransaction::validate_account_locks(distinct.message(), 3), Ok(()));
}

#[test]
fn duplicates_among_loaded_addresses_are_found() {
    let message = v0_message(
        keys(1, 4),
        vec![MessageAddressTableLookup { account_key: key(50), writable_indexes: vec![0], readonly_indexes: vec![1] }],
    );
    let tx = VersionedTransaction { signatures: vec![Signature::default()], message: VersionedMessage::V0(message) };
    let loaded = LoadedAddresses { writable: vec![key(60)], readonly: vec![key(2)] };
    let sanitized = SanitizedTransaction::try_create(
        tx,
        MessageHash::Precomputed(sanitized_transaction::keys::Hash([1u8; 32])),
        None,
        SimpleAddressLoader::Enabled(loaded),
        &HashSet::default(),
    )
    .unwrap();
    assert_eq!(sanitized.get_account_locks(128).err(), Some(TransactionError::AccountLoadedTwice));
}

#[test]
fn table_addressed_transaction_round_trip() {
    let lookups = vec![MessageAddressTableLookup {
        account_key: key(50),
        writable_indexes: vec![3, 4],
        readonly_indexes: vec![9],
    }];
    let tx = VersionedTransaction {
        signatures: vec![Signature([3u8; 64])],
        message: VersionedMessage::V0(v0_message(keys(1, 4), lookups)),
    };
    let loaded = LoadedAddresses { writable: vec![key(60), key(61)], readonly: vec![key(62)] };
    let hash = sanitized_transaction::keys::Hash([8u8; 32]);
    let sanitized = SanitizedTransaction::try_create(
        tx.clone(),
        MessageHash::from(hash),
        None,
        SimpleAddressLoader::Enabled(loaded.clone()),
        &HashSet::default(),
    )
    .unwrap();
    assert_eq!(*sanitized.message_hash(), hash);
    assert!(!sanitized.is_simple_vote_transaction());
    assert_eq!(sanitized.get_loaded_addresses(), loaded);
    assert_eq!(sanitized.message().account_keys().len(), 7);
    assert_eq!(sanitized.message().account_keys().get(4), Some(&key(60)));
    assert_eq!(sanitized.message().account_keys().get(6), Some(&key(62)));
    assert_eq!(sanitized.message().account_keys().get(7), None);
    let locks = sanitized.get_account_locks(128).unwrap();
    // key 2 is called as a program, key 4 is the read-only unsigned key
    assert_eq!(deref(&locks.writable), vec![key(1), key(3), key(60), key(61)]);
    assert_eq!(deref(&locks.readonly), vec![key(2), key(4), key(62)]);
    let emitted = sanitized.to_versioned_transaction();
    assert_eq!(emitted, tx);
    match emitted.message {
        VersionedMessage::V0(message) => {
            assert_eq!(message.account_keys, keys(1, 4));
            assert_eq!(message.address_table_lookups.len(), 1);
            assert_eq!(message.address_table_lookups[0].writable_indexes, vec![3, 4]);
            assert_eq!(message.address_table_lookups[0].readonly_indexes, vec![9]);
        }
        VersionedMessage::Legacy(_) => panic!("the message came with table lookups"),
    }
    assert_eq!(sanitized.clone(), sanitized);
}

#[test]
fn legacy_transaction_round_trip_has_no_loaded_addresses() {
    let tx = Transaction {
        signatures: vec![Signature([4u8; 64])],
        message: plain_message(1, 0, 1, keys(1, 3)),
    };
    let sanitized = SanitizedTransaction::try_from_legacy_transaction(tx.clone(), &HashSet::default()).unwrap();
    assert!(!sanitized.is_simple_vote_transaction());
    assert_eq!(sanitized.get_loaded_addresses(), LoadedAddresses::default());
    assert!(sanitized.get_loaded_addresses().is_empty());
    assert_eq!(sanitized.to_versioned_transaction(), VersionedTransaction::from_legacy(tx.clone()));
    assert_eq!(SanitizedTransaction::from_transaction_for_tests(tx), sanitized);
}

#[test]
fn address_loader_failures_are_handed_on() {
    let cases = [
        (AddressLoaderError::Disabled, TransactionError::UnsupportedVersion),
        (AddressLoaderError::SlotHashesSysvarNotFound, TransactionError::AccountNotFound),
        (AddressLoaderError::LookupTableAccountNotFound, TransactionError::AddressLookupTableNotFound),
        (AddressLoaderError::InvalidAccountOwner, TransactionError::InvalidAddressLookupTableOwner),
        (AddressLoaderError::InvalidAccountData, TransactionError::InvalidAddressLookupTableData),
        (AddressLoaderError::InvalidLookupIndex, TransactionError::InvalidAddressLookupTableIndex),
    ];
    let hash = sanitized_transaction::keys::Hash::default();
    for (cause, expected) in cases {
        let lookups = vec![MessageAddressTableLookup { account_key: key(50), writable_indexes: vec![0], readonly_indexes: vec![] }];
        let tx = VersionedTransaction {
            signatures: vec![Signature::default()],
            message: VersionedMessage::V0(v0_message(keys(1, 4), lookups)),
        };
        let sanitized_tx = SanitizedVersionedTransaction::try_new(tx.clone()).unwrap();
        let r = SanitizedTransaction::try_new_resolved(sanitized_tx, hash, false, Err(cause), &HashSet::default());
        assert_eq!(r.err(), Some(expected));
        let r = SanitizedTransaction::try_create_resolved(tx, MessageHash::Compute, None, Err(cause), &HashSet::default());
        assert_eq!(r.err(), Some(expected));
        assert_eq!(TransactionError::from(cause), expected);
    }
    // a disabled loader refuses a message with lookups and is not asked for one without
    let lookups = vec![MessageAddressTableLookup { account_key: key(50), writable_indexes: vec![0], readonly_indexes: vec![] }];
    let with_lookups = VersionedTransaction {
        signatures: vec![Signature::default()],
        message: VersionedMessage::V0(v0_message(keys(1, 4), lookups)),
    };
    let sanitized_tx = SanitizedVersionedTransaction::try_new(with_lookups).unwrap();
    let r = SanitizedTransaction::try_new(sanitized_tx, hash, false, SimpleAddressLoader::Disabled, &HashSet::default());
    assert_eq!(r.err(), Some(TransactionError::UnsupportedVersion));
    let legacy = VersionedTransaction {
        signatures: vec![Signature::default()],
        message: VersionedMessage::Legacy(plain_message(1, 0, 0, keys(1, 2))),
    };
    let sanitized_tx = SanitizedVersionedTransaction::try_new(legacy).unwrap();
    let r = SanitizedTransaction::try_new(sanitized_tx, hash, false, SimpleAddressLoader::Disabled, &HashSet::default());
    assert!(r.is_ok());
}

#[test]
fn structurally_invalid_transactions_fail_to_sanitize() {
    // too few signatures
    let tx = VersionedTransaction {
        signatures: vec![],
        message: VersionedMessage::Legacy(plain_message(1, 0, 0, keys(1, 2))),
    };
    let r = SanitizedTransaction::try_create(tx, MessageHash::Compute, None, SimpleAddressLoader::Disabled, &HashSet::default());
    assert_eq!(r.err(), Some(TransactionError::SanitizeFailure));
    // no writable signer
    let tx = Transaction { signatures: vec![Signature::default()], message: plain_message(1, 1, 0, keys(1, 2)) };
    let r = SanitizedTransaction::try_from_legacy_transaction(tx, &HashSet::default());
    assert_eq!(r.err(), Some(TransactionError::SanitizeFailure));
    assert_eq!(TransactionError::from(SanitizeError::InvalidValue), TransactionError::SanitizeFailure);
    assert_eq!(TransactionError::from(SanitizeError::ValueOutOfBounds), TransactionError::SanitizeFailure);
}

#[test]
fn vote_flag_override_beats_the_heuristic() {
    let vote_program = sanitized_transaction::program_ids::vote_program_id();
    let mut message = plain_message(3, 0, 1, vec![key(1), key(2), key(3), key(4), vote_program]);
    message.instructions = vec![CompiledInstruction { program_id_index: 4, accounts: vec![3, 1], data: vec![2, 0, 0, 0] }];
    let tx = VersionedTransaction {
        signatures: vec![Signature::default(); 3],
        message: VersionedMessage::Legacy(message.clone()),
    };
    let create = |flag: Option<bool>| {
        SanitizedTransaction::try_create(tx.clone(), MessageHash::Compute, flag, SimpleAddressLoader::Disabled, &HashSet::default())
            .unwrap()
            .is_simple_vote_transaction()
    };
    assert!(create(Some(true)));
    assert!(!create(Some(false)));
    assert!(!create(None));
    // with two signatures the heuristic takes the same shape for a vote
    message.header.num_required_signatures = 2;
    let tx = VersionedTransaction {
        signatures: vec![Signature::default(); 2],
        message: VersionedMessage::Legacy(message),
    };
    let two = SanitizedVersionedTransaction::try_new(tx).unwrap();
    assert!(sanitized_transaction::simple_vote::is_simple_vote_transaction(&two));
}

#[test]
fn verify_checks_every_signature() {
    let payer = Keypair::new();
    let other = Keypair::new();
    let mut message = plain_message(
        2,
        0,
        1,
        vec![Pubkey(payer.pubkey().to_bytes()), Pubkey(other.pubkey().to_bytes()), key(3), key(4)],
    );
    message.instructions = vec![CompiledInstruction { program_id_index: 3, accounts: vec![0, 2], data: vec![9, 9] }];
    let reserved = HashSet::default();
    let unsigned = Transaction { signatures: vec![Signature::default(); 2], message: message.clone() };
    let data = SanitizedTransaction::try_from_legacy_transaction(unsigned, &reserved).unwrap().message_data();
    let signatures = vec![
        Signature(*payer.sign_message(&data).as_array()),
        Signature(*other.sign_message(&data).as_array()),
    ];
    let signed = Transaction { signatures: signatures.clone(), message: message.clone() };
    let tx = SanitizedTransaction::try_from_legacy_transaction(signed, &reserved).unwrap();
    assert_eq!(tx.verify(), Ok(()));

    // a flipped byte in either signature
    for which in 0..2 {
        for at in [0usize, 31, 63] {
            let mut bad = signatures.clone();
            bad[which].0[at] ^= 1;
            let tx = SanitizedTransaction::try_from_legacy_transaction(
                Transaction { signatures: bad, message: message.clone() },
                &reserved,
            )
            .unwrap();
            assert_eq!(tx.verify(), Err(TransactionError::SignatureFailure));
        }
    }
    // a flipped byte in the message
    let mut changed = message.clone();
    changed.recent_blockhash.0[5] ^= 1;
    let tx = SanitizedTransaction::try_from_legacy_transaction(
        Transaction { signatures: signatures.clone(), message: changed },
        &reserved,
    )
    .unwrap();
    assert_eq!(tx.verify(), Err(TransactionError::SignatureFailure));
    let mut changed = message.clone();
    changed.instructions[0].data[1] ^= 0x80;
    let tx = SanitizedTransaction::try_from_legacy_transaction(
        Transaction { signatures: signatures.clone(), message: changed },
        &reserved,
    )
    .unwrap();
    assert_eq!(tx.verify(), Err(TransactionError::SignatureFailure));
    // signatures in the wrong order
    let swapped = vec![signatures[1], signatures[0]];
    let tx = SanitizedTransaction::try_from_legacy_transaction(
        Transaction { signatures: swapped, message },
        &reserved,
    )
    .unwrap();
    assert_eq!(tx.verify(), Err(TransactionError::SignatureFailure));
}

#[test]
fn new_for_tests_gives_fresh_hashes() {
    let message = SanitizedMessage::try_from_legacy_message(plain_message(1, 0, 0, keys(1, 2)), &HashSet::default()).unwrap();
    let first = SanitizedTransaction::new_for_tests(message.clone(), vec![Signature([1u8; 64])], true);
    let second = SanitizedTransaction::new_for_tests(message.clone(), vec![Signature([1u8; 64])], true);
    assert_ne!(first.message_hash(), second.message_hash());
    assert!(first.is_simple_vote_transaction());
    assert_eq!(*first.message(), message);
    assert_eq!(first.signatures(), &[Signature([1u8; 64])]);
}
