//! The wire encoding of messages, their hash and the signature check, as
//! the Solana crates compute them.

use vstd::prelude::*;
use crate::keys::{Pubkey, Signature};
use solana_message::compiled_instruction::CompiledInstruction;
use solana_message::v0::MessageAddressTableLookup;
use solana_message::MessageHeader;

verus! {

/// The bytes that encode a message in the legacy format: what is signed.
pub uninterp spec fn legacy_message_bytes(message: crate::legacy::MessageView) -> Seq<u8>;

/// The bytes that encode a message with table lookups: what is signed.
pub uninterp spec fn v0_message_bytes(message: crate::v0::MessageView) -> Seq<u8>;

/// The hash that identifies a message with the given encoding.
pub uninterp spec fn message_bytes_hash(bytes: Seq<u8>) -> crate::keys::Hash;

/// Whether the signature is a valid Ed25519 signature of the message under
/// the public key.
pub uninterp spec fn signature_verifies(signature: Signature, pubkey: Pubkey, message: Seq<u8>) -> bool;

/// Encodes the message with `solana_message::legacy::Message::serialize`.
/// The result depends on the message alone. The lists must be short enough
/// for the encoding, which fails on a longer one.
#[verifier::external_body]
pub(crate) fn serialize_legacy(message: &crate::legacy::Message) -> (bytes: Vec<u8>)
    requires
        message@.fits_wire(),
    ensures
        bytes@ == legacy_message_bytes(message@),
{
    let outside = solana_message::legacy::Message {
        header: MessageHeader {
            num_required_signatures: message.header.num_required_signatures,
            num_readonly_signed_accounts: message.header.num_readonly_signed_accounts,
            num_readonly_unsigned_accounts: message.header.num_readonly_unsigned_accounts,
        },
        account_keys: message.account_keys.iter().map(|k| k.0.into()).collect(),
        recent_blockhash: message.recent_blockhash.0.into(),
        instructions: message.instructions.iter().map(|i| CompiledInstruction::new_from_raw_parts(i.program_id_index, i.data.clone(), i.accounts.clone())).collect(),
    };
    outside.serialize()
}

/// Encodes the message with `solana_message::v0::Message::serialize`.
/// The result depends on the message alone. The lists must be short enough
/// for the encoding, which fails on a longer one.
#[verifier::external_body]
pub(crate) fn serialize_v0(message: &crate::v0::Message) -> (bytes: Vec<u8>)
    requires
        message@.fits_wire(),
    ensures
        bytes@ == v0_message_bytes(message@),
{
    let outside = solana_message::v0::Message {
        header: MessageHeader {
            num_required_signatures: message.header.num_required_signatures,
            num_readonly_signed_accounts: message.header.num_readonly_signed_accounts,
            num_readonly_unsigned_accounts: message.header.num_readonly_unsigned_accounts,
        },
        account_keys: message.account_keys.iter().map(|k| k.0.into()).collect(),
        recent_blockhash: message.recent_blockhash.0.into(),
        instructions: message.instructions.iter().map(|i| CompiledInstruction::new_from_raw_parts(i.program_id_index, i.data.clone(), i.accounts.clone())).collect(),
        address_table_lookups: message.address_table_lookups.iter().map(|l| MessageAddressTableLookup { account_key: l.account_key.0.into(), writable_indexes: l.writable_indexes.clone(), readonly_indexes: l.readonly_indexes.clone() }).collect(),
    };
    outside.serialize()
}

/// Hashes an encoded message with
/// `solana_message::VersionedMessage::hash_raw_message`. The result
/// depends on the bytes alone.
#[verifier::external_body]
pub(crate) fn hash_raw_message(bytes: &[u8]) -> (hash: crate::keys::Hash)
    ensures
        hash == message_bytes_hash(bytes@),
{
    crate::keys::Hash(solana_message::VersionedMessage::hash_raw_message(bytes).to_bytes())
}

/// Checks a signature with `solana_signature::Signature::verify`. The
/// result depends on the three values alone.
#[verifier::external_body]
pub(crate) fn verify_signature(signature: &Signature, pubkey: &Pubkey, message: &[u8]) -> (ok: bool)
    ensures
        ok == signature_verifies(*signature, *pubkey, message@),
{
    solana_signature::Signature::from(signature.0).verify(&pubkey.0, message)
}

/// A hash from `solana_hash::Hash::new_unique`, which differs from call
/// to call.
#[verifier::external_body]
pub(crate) fn unique_hash() -> (hash: crate::keys::Hash)
{
    crate::keys::Hash(solana_hash::Hash::new_unique().to_bytes())
}

} // verus!
