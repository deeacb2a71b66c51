use sanitized_transaction::error::SanitizeError;
use sanitized_transaction::keys::{Pubkey, Signature};
use sanitized_transaction::legacy::{CompiledInstruction, Message, MessageHeader};
use sanitized_transaction::sanitized::{MessageHash, SanitizedTransaction};
use sanitized_transaction::sanitized_message::SanitizedMessage;
use sanitized_transaction::transaction::{Transaction, VersionedTransaction};
use sanitized_transaction::address_loader::SimpleAddressLoader;
use sanitized_transaction::v0::{LoadedAddresses, MessageAddressTableLookup};
use sanitized_transaction::versioned::{SanitizedVersionedMessage, VersionedMessage};
use solana_sanitize::Sanitize;
use std::collections::HashSet;

fn key(n: u16) -> Pubkey {
    let mut bytes = [0u8; 32];
    bytes[0] = (n & 0xff) as u8;
    bytes[1] = (n >> 8) as u8;
    bytes[31] = 0xa5;
    Pubkey(bytes)
}

fn keys(from: u16, count: u16) -> Vec<Pubkey> {
    (from..from + count).map(key).collect()
}

fn header(signers: u8, readonly_signed: u8, readonly_unsigned: u8) -> MessageHeader {
    MessageHeader {
        num_required_signatures: signers,
        num_readonly_signed_accounts: readonly_signed,
        num_readonly_unsigned_accounts: readonly_unsigned,
    }
}

fn ix(program_id_index: u8, accounts: &[u8], data: &[u8]) -> CompiledInstruction {
    CompiledInstruction { program_id_index, accounts: accounts.to_vec(), data: data.to_vec() }
}

fn outside_key(k: &Pubkey) -> solana_pubkey::Pubkey {
    solana_pubkey::Pubkey::new_from_array(k.0)
}

fn outside_header(h: &MessageHeader) -> solana_message::MessageHeader {
    solana_message::MessageHeader {
        num_required_signatures: h.num_required_signatures,
        num_readonly_signed_accounts: h.num_readonly_signed_accounts,
        num_readonly_unsigned_accounts: h.num_readonly_unsigned_accounts,
    }
}

fn outside_ix(i: &CompiledInstruction) -> solana_message::compiled_instruction::CompiledInstruction {
    solana_message::compiled_instruction::CompiledInstruction {
        program_id_index: i.program_id_index,
        accounts: i.accounts.clone(),
        data: i.data.clone(),
    }
}

fn outside_legacy(m: &Message) -> solana_message::legacy::Message {
    solana_message::legacy::Message {
        header: outside_header(&m.header),
        account_keys: m.account_keys.iter().map(outside_key).collect(),
        recent_blockhash: solana_hash::Hash::new_from_array(m.recent_blockhash.0),
        instructions: m.instructions.iter().map(outside_ix).collect(),
    }
}

fn outside_v0(m: &sanitized_transaction::v0::Message) -> solana_message::v0::Message {
    solana_message::v0::Message {
        header: outside_header(&m.header),
        account_keys: m.account_keys.iter().map(outside_key).collect(),
        recent_blockhash: solana_hash::Hash::new_from_array(m.recent_blockhash.0),
        instructions: m.instructions.iter().map(outside_ix).collect(),
        address_table_lookups: m
            .address_table_lookups
            .iter()
            .map(|l| solana_message::v0::MessageAddressTableLookup {
                account_key: outside_key(&l.account_key),
                writable_indexes: l.writable_indexes.clone(),
                readonly_indexes: l.readonly_indexes.clone(),
            })
            .collect(),
    }
}

fn outside_loaded(l: &LoadedAddresses) -> solana_message::v0::LoadedAddresses {
    solana_message::v0::LoadedAddresses {
        writable: l.writable.iter().map(outside_key).collect(),
        readonly: l.readonly.iter().map(outside_key).collect(),
    }
}

fn outside_error(e: SanitizeError) -> solana_sanitize::SanitizeError {
    match e {
        SanitizeError::IndexOutOfBounds => solana_sanitize::SanitizeError::IndexOutOfBounds,
        SanitizeError::ValueOutOfBounds => solana_sanitize::SanitizeError::ValueOutOfBounds,
        SanitizeError::InvalidValue => solana_sanitize::SanitizeError::InvalidValue,
    }
}

fn legacy(h: MessageHeader, account_keys: Vec<Pubkey>, instructions: Vec<CompiledInstruction>) -> Message {
    Message {
        header: h,
        account_keys,
        recent_blockhash: sanitized_transaction::keys::Hash([0x42; 32]),
        instructions,
    }
}

fn v0(
    h: MessageHeader,
    account_keys: Vec<Pubkey>,
    instructions: Vec<CompiledInstruction>,
    lookups: Vec<MessageAddressTableLookup>,
) -> sanitized_transaction::v0::Message {
    sanitized_transaction::v0::Message {
        header: h,
        account_keys,
        recent_blockhash: sanitized_transaction::keys::Hash([0x24; 32]),
        instructions,
        address_table_lookups: lookups,
    }
}

fn lookup(table: u16, writable: &[u8], readonly: &[u8]) -> MessageAddressTableLookup {
    MessageAddressTableLookup {
        account_key: key(table),
        writable_indexes: writable.to_vec(),
        readonly_indexes: readonly.to_vec(),
    }
}

fn legacy_cases() -> Vec<Message> {
    let loader = sanitized_transaction::program_ids::upgradeable_loader_id();
    vec![
        legacy(header(1, 0, 0), keys(1, 1), vec![]),
        legacy(header(2, 1, 1), keys(1, 5), vec![ix(3, &[0, 1, 4], &[1, 2, 3])]),
        legacy(header(2, 1, 1), keys(1, 5), vec![ix(3, &[0, 1], &[]), ix(2, &[4], &[7])]),
        legacy(header(1, 0, 2), vec![key(1), key(2), loader, key(4)], vec![ix(1, &[0], &[]), ix(3, &[], &[])]),
        legacy(header(3, 2, 0), keys(1, 3), vec![ix(2, &[0, 1, 2], &[0; 40])]),
        legacy(header(1, 0, 0), vec![key(1), key(2), key(1)], vec![ix(1, &[2], &[])]),
        // invalid ones
        legacy(header(0, 0, 0), keys(1, 2), vec![]),
        legacy(header(1, 1, 0), keys(1, 2), vec![]),
        legacy(header(2, 0, 2), keys(1, 3), vec![]),
        legacy(header(1, 0, 0), keys(1, 3), vec![ix(0, &[1], &[])]),
        legacy(header(1, 0, 0), keys(1, 3), vec![ix(3, &[1], &[])]),
        legacy(header(1, 0, 0), keys(1, 3), vec![ix(1, &[0, 3], &[])]),
        legacy(header(1, 0, 0), vec![], vec![]),
    ]
}

fn v0_cases() -> Vec<sanitized_transaction::v0::Message> {
    let loader = sanitized_transaction::program_ids::upgradeable_loader_id();
    vec![
        v0(header(1, 0, 0), keys(1, 2), vec![ix(1, &[0], &[])], vec![]),
        v0(header(1, 0, 1), keys(1, 4), vec![ix(1, &[0, 2, 3, 4, 5, 6], &[5])], vec![lookup(50, &[1, 2], &[3])]),
        v0(header(2, 1, 1), keys(1, 4), vec![ix(2, &[0, 5], &[]), ix(3, &[4], &[])], vec![lookup(50, &[1], &[]), lookup(51, &[], &[0])]),
        v0(header(1, 0, 0), vec![key(1), loader, key(3)], vec![ix(2, &[0], &[])], vec![lookup(50, &[0], &[1])]),
        v0(header(1, 0, 0), keys(1, 1), vec![], vec![lookup(50, &[0; 255], &[])]),
        // invalid ones
        v0(header(1, 0, 2), keys(1, 2), vec![], vec![]),
        v0(header(1, 1, 0), keys(1, 2), vec![], vec![]),
        v0(header(1, 0, 0), keys(1, 2), vec![], vec![lookup(50, &[], &[])]),
        v0(header(1, 0, 0), keys(1, 2), vec![], vec![lookup(50, &[1], &[]), lookup(51, &[], &[])]),
        v0(header(1, 0, 0), keys(1, 2), vec![], vec![lookup(50, &[0; 200], &[0; 55])]),
        v0(header(1, 0, 0), keys(1, 2), vec![], vec![lookup(50, &[0; 200], &[0; 55]), lookup(51, &[], &[])]),
        v0(header(1, 0, 0), keys(1, 2), vec![ix(2, &[0], &[])], vec![lookup(50, &[1], &[])]),
        v0(header(1, 0, 0), keys(1, 2), vec![ix(0, &[0], &[])], vec![]),
        v0(header(1, 0, 0), keys(1, 2), vec![ix(1, &[3], &[])], vec![lookup(50, &[1], &[])]),
        v0(header(0, 0, 0), vec![], vec![], vec![]),
    ]
}

#[test]
fn program_ids_are_those_of_the_sdk() {
    assert_eq!(sanitized_transaction::program_ids::vote_program_id().0, solana_sdk_ids::vote::id().to_bytes());
    assert_eq!(
        sanitized_transaction::program_ids::upgradeable_loader_id().0,
        solana_sdk_ids::bpf_loader_upgradeable::id().to_bytes()
    );
    assert_eq!(
        sanitized_transaction::program_ids::system_program_id().0,
        solana_sdk_ids::system_program::id().to_bytes()
    );
    assert!(sanitized_transaction::program_ids::check_vote_program(&Pubkey(solana_sdk_ids::vote::id().to_bytes())));
    assert!(!sanitized_transaction::program_ids::check_vote_program(&key(1)));
    assert!(sanitized_transaction::program_ids::check_system_program(&Pubkey::default()));
    assert!(!sanitized_transaction::program_ids::check_upgradeable_loader(&Pubkey::default()));
}

#[test]
fn legacy_sanitize_agrees_with_solana_message() {
    let mut valid = 0;
    for message in legacy_cases() {
        let expected = outside_legacy(&message).sanitize();
        assert_eq!(message.sanitize().map_err(outside_error), expected);
        if expected.is_ok() {
            valid += 1;
        }
    }
    assert_eq!(valid, 6);
}

#[test]
fn v0_sanitize_agrees_with_solana_message() {
    let mut outcomes = Vec::new();
    for message in v0_cases() {
        let expected = outside_v0(&message).sanitize();
        assert_eq!(message.sanitize().map_err(outside_error), expected);
        outcomes.push(message.sanitize());
    }
    assert_eq!(
        outcomes,
        vec![
            Ok(()),
            Ok(()),
            Ok(()),
            Ok(()),
            Ok(()),
            Err(SanitizeError::IndexOutOfBounds),
            Err(SanitizeError::InvalidValue),
            Err(SanitizeError::InvalidValue),
            Err(SanitizeError::InvalidValue),
            Err(SanitizeError::IndexOutOfBounds),
            Err(SanitizeError::InvalidValue),
            Err(SanitizeError::IndexOutOfBounds),
            Err(SanitizeError::IndexOutOfBounds),
            Err(SanitizeError::IndexOutOfBounds),
            Err(SanitizeError::InvalidValue),
        ]
    );
}

#[test]
fn legacy_writability_agrees_with_solana_message() {
    let reserved_sets: Vec<Vec<Pubkey>> = vec![vec![], vec![key(1)], vec![key(3), key(5)], keys(1, 6)];
    for message in legacy_cases() {
        if message.sanitize().is_err() {
            continue;
        }
        for reserved in &reserved_sets {
            let own_reserved: HashSet<Pubkey> = reserved.iter().copied().collect();
            let outside_reserved: HashSet<solana_pubkey::Pubkey> = reserved.iter().map(outside_key).collect();
            let own = SanitizedMessage::try_from_legacy_message(message.clone(), &own_reserved).unwrap();
            let outside = solana_message::SanitizedMessage::try_from_legacy_message(
                outside_legacy(&message),
                &outside_reserved,
            )
            .unwrap();
            for index in 0..message.account_keys.len() + 2 {
                assert_eq!(own.is_writable(index), outside.is_writable(index));
                assert_eq!(own.is_signer(index), outside.is_signer(index));
                assert_eq!(own.account_keys().get(index).map(outside_key), outside.account_keys().get(index).copied());
            }
            assert_eq!(own.has_duplicates(), outside.has_duplicates());
            assert_eq!(own.num_readonly_accounts(), outside.num_readonly_accounts());
            assert_eq!(own.account_keys().len(), outside.account_keys().len());
            assert_eq!(own.get_durable_nonce().map(outside_key), outside.get_durable_nonce().copied());
        }
    }
}

#[test]
fn loaded_writability_agrees_with_solana_message() {
    let loader = sanitized_transaction::program_ids::upgradeable_loader_id();
    let loaded_sets = vec![
        LoadedAddresses { writable: vec![], readonly: vec![] },
        LoadedAddresses { writable: vec![key(60), key(61)], readonly: vec![key(62)] },
        LoadedAddresses { writable: vec![key(60)], readonly: vec![loader, key(1)] },
        LoadedAddresses { writable: vec![key(2), key(60), key(60)], readonly: vec![] },
    ];
    let reserved_sets: Vec<Vec<Pubkey>> = vec![vec![], vec![key(1), key(60)], vec![key(62), key(3)]];
    for message in v0_cases() {
        if message.sanitize().is_err() {
            continue;
        }
        for loaded in &loaded_sets {
            for reserved in &reserved_sets {
                let own_reserved: HashSet<Pubkey> = reserved.iter().copied().collect();
                let outside_reserved: HashSet<solana_pubkey::Pubkey> = reserved.iter().map(outside_key).collect();
                let sanitized = SanitizedVersionedMessage::try_new(VersionedMessage::V0(message.clone())).unwrap();
                let own = SanitizedMessage::try_new(
                    sanitized,
                    SimpleAddressLoader::Enabled(loaded.clone()),
                    &own_reserved,
                )
                .unwrap();
                let outside = solana_message::SanitizedMessage::V0(solana_message::v0::LoadedMessage::new(
                    outside_v0(&message),
                    outside_loaded(loaded),
                    &outside_reserved,
                ));
                let total = message.account_keys.len() + loaded.writable.len() + loaded.readonly.len();
                assert_eq!(own.account_keys().len(), total);
                for index in 0..total + 2 {
                    assert_eq!(own.is_writable(index), outside.is_writable(index));
                    assert_eq!(own.account_keys().get(index).map(outside_key), outside.account_keys().get(index).copied());
                }
                assert_eq!(own.has_duplicates(), outside.has_duplicates());
                assert_eq!(own.num_readonly_accounts(), outside.num_readonly_accounts());
                assert_eq!(own.get_durable_nonce().map(outside_key), outside.get_durable_nonce().copied());
                assert_eq!(own.message_address_table_lookups().len(), outside.message_address_table_lookups().len());
            }
        }
    }
}

#[test]
fn durable_nonce_agrees_with_solana_message() {
    let nonce = solana_pubkey::Pubkey::new_from_array(key(10).0);
    let authority = solana_pubkey::Pubkey::new_from_array(key(11).0);
    let payer = solana_pubkey::Pubkey::new_from_array(key(12).0);
    let advance = solana_system_interface::instruction::advance_nonce_account(&nonce, &authority);
    let transfer = solana_system_interface::instruction::transfer(&payer, &nonce, 5);
    let with_nonce = solana_message::legacy::Message::new(&[advance.clone(), transfer.clone()], Some(&payer));
    let nonce_second = solana_message::legacy::Message::new(&[transfer.clone(), advance.clone()], Some(&payer));
    let without = solana_message::legacy::Message::new(&[transfer], Some(&payer));
    let mut expected_some = 0;
    for outside in [with_nonce, nonce_second, without] {
        let own_message = Message {
            header: header(
                outside.header.num_required_signatures,
                outside.header.num_readonly_signed_accounts,
                outside.header.num_readonly_unsigned_accounts,
            ),
            account_keys: outside.account_keys.iter().map(|k| Pubkey(k.to_bytes())).collect(),
            recent_blockhash: sanitized_transaction::keys::Hash(outside.recent_blockhash.to_bytes()),
            instructions: outside.instructions.iter().map(|i| ix(i.program_id_index, &i.accounts, &i.data)).collect(),
        };
        for reserved in [vec![], vec![key(10)]] {
            let own_reserved: HashSet<Pubkey> = reserved.iter().copied().collect();
            let outside_reserved: HashSet<solana_pubkey::Pubkey> = reserved.iter().map(outside_key).collect();
            let expected = solana_message::SanitizedMessage::try_from_legacy_message(outside.clone(), &outside_reserved).unwrap();
            let own = SanitizedMessage::try_from_legacy_message(own_message.clone(), &own_reserved).unwrap();
            assert_eq!(own.get_durable_nonce().map(outside_key), expected.get_durable_nonce().copied());
            let signatures = vec![Signature::default(); own_message.header.num_required_signatures as usize];
            let tx = SanitizedTransaction::try_new_from_fields(own, sanitized_transaction::keys::Hash::default(), false, signatures).unwrap();
            assert_eq!(tx.get_durable_nonce().map(outside_key), expected.get_durable_nonce().copied());
            if expected.get_durable_nonce().is_some() {
                expected_some += 1;
                assert_eq!(tx.get_durable_nonce(), Some(&key(10)));
            }
        }
    }
    assert_eq!(expected_some, 1);
}

#[test]
fn message_bytes_and_hash_agree_with_solana_message() {
    for message in legacy_cases() {
        if message.sanitize().is_err() {
            continue;
        }
        let outside = outside_legacy(&message);
        let signatures = vec![Signature::default(); message.header.num_required_signatures as usize];
        let tx = SanitizedTransaction::try_from_legacy_transaction(
            Transaction { signatures: signatures.clone(), message: message.clone() },
            &HashSet::default(),
        )
        .unwrap();
        assert_eq!(tx.message_data(), outside.serialize());
        assert_eq!(tx.message_hash().0, outside.hash().to_bytes());
        assert_eq!(
            tx.message_hash().0,
            solana_message::VersionedMessage::Legacy(outside.clone()).hash().to_bytes()
        );
        let versioned = VersionedMessage::Legacy(message.clone());
        assert!(versioned.fits_wire());
        assert_eq!(versioned.serialize(), solana_message::VersionedMessage::Legacy(outside).serialize());
    }
    for message in v0_cases() {
        if message.sanitize().is_err() {
            continue;
        }
        let outside = outside_v0(&message);
        let signatures = vec![Signature::default(); message.header.num_required_signatures as usize];
        let tx = SanitizedTransaction::try_create(
            VersionedTransaction { signatures, message: VersionedMessage::V0(message.clone()) },
            MessageHash::Compute,
            None,
            SimpleAddressLoader::Enabled(LoadedAddresses::default()),
            &HashSet::default(),
        )
        .unwrap();
        assert_eq!(tx.message_data(), outside.serialize());
        assert_eq!(tx.message_data()[0], 0x80);
        let versioned = solana_message::VersionedMessage::V0(outside);
        assert_eq!(tx.message_data(), versioned.serialize());
        assert_eq!(tx.message_hash().0, versioned.hash().to_bytes());
    }
}

#[test]
fn messages_beyond_the_wire_limits_are_told_apart() {
    let mut message = legacy(header(1, 0, 0), keys(1, 2), vec![ix(1, &[0], &[0; 70000])]);
    assert!(!message.fits_wire());
    assert!(!VersionedMessage::Legacy(message.clone()).fits_wire());
    message.instructions[0].data.truncate(65535);
    assert!(message.fits_wire());
    message.instructions[0].accounts = vec![0; 65536];
    assert!(!message.fits_wire());
    let mut with_lookups = v0(header(1, 0, 0), keys(1, 2), vec![], vec![lookup(50, &[0; 10], &[])]);
    assert!(with_lookups.fits_wire());
    with_lookups.address_table_lookups[0].readonly_indexes = vec![0; 65536];
    assert!(!with_lookups.fits_wire());
    assert!(!VersionedMessage::V0(with_lookups).fits_wire());
}

#[test]
fn byte_values_compare_by_their_bytes() {
    assert_eq!(key(1), key(1));
    assert_ne!(key(1), key(2));
    assert_eq!(Pubkey::default(), Pubkey([0u8; 32]));
    assert_eq!(Signature::default(), Signature([0u8; 64]));
    assert_eq!(sanitized_transaction::keys::Hash::default().to_bytes(), [0u8; 32]);
    assert_eq!(Pubkey::new_from_array([3u8; 32]).to_bytes(), [3u8; 32]);
    assert!(sanitized_transaction::keys::bytes_equal(&[1, 2, 3], &[1, 2, 3]));
    assert!(!sanitized_transaction::keys::bytes_equal(&[1, 2, 3], &[1, 2, 4]));
    assert!(!sanitized_transaction::keys::bytes_equal(&[1, 2, 3], &[1, 2]));
    assert_eq!(
        MessageHash::from(sanitized_transaction::keys::Hash([1u8; 32])),
        MessageHash::Precomputed(sanitized_transaction::keys::Hash([1u8; 32]))
    );
}
