//! A message in either format, and the same after structural checks.

use vstd::prelude::*;
use crate::error::SanitizeError;
use crate::keys::Pubkey;
use crate::legacy::{instruction_views, CompiledInstruction, InstructionView, MessageHeader};
use crate::wire::{
    hash_raw_message, legacy_message_bytes, message_bytes_hash, serialize_legacy, serialize_v0,
    v0_message_bytes,
};

verus! {

/// A message in the legacy format or in the format with table lookups.
#[derive(Debug, PartialEq, Eq)]
pub enum VersionedMessage {
    Legacy(crate::legacy::Message),
    V0(crate::v0::Message),
}

/// What a message in either format holds.
pub enum VersionedMessageView {
    Legacy(crate::legacy::MessageView),
    V0(crate::v0::MessageView),
}

impl View for VersionedMessage {
    type V = VersionedMessageView;

    open spec fn view(&self) -> VersionedMessageView {
        match self {
            VersionedMessage::Legacy(message) => VersionedMessageView::Legacy(message@),
            VersionedMessage::V0(message) => VersionedMessageView::V0(message@),
        }
    }
}

impl VersionedMessageView {
    /// The header of the message.
    pub open spec fn header(self) -> MessageHeader {
        match self {
            VersionedMessageView::Legacy(message) => message.header,
            VersionedMessageView::V0(message) => message.header,
        }
    }

    /// The account keys that the message carries itself.
    pub open spec fn static_account_keys(self) -> Seq<Pubkey> {
        match self {
            VersionedMessageView::Legacy(message) => message.account_keys,
            VersionedMessageView::V0(message) => message.account_keys,
        }
    }

    /// The instructions of the message.
    pub open spec fn instructions(self) -> Seq<InstructionView> {
        match self {
            VersionedMessageView::Legacy(message) => message.instructions,
            VersionedMessageView::V0(message) => message.instructions,
        }
    }

    /// The table lookups of the message: none for the legacy format.
    pub open spec fn address_table_lookups(self) -> Seq<crate::v0::LookupView> {
        match self {
            VersionedMessageView::Legacy(_) => Seq::empty(),
            VersionedMessageView::V0(message) => message.address_table_lookups,
        }
    }

    /// What sanitizing the message returns.
    pub open spec fn sanitize_result(self) -> Result<(), SanitizeError> {
        match self {
            VersionedMessageView::Legacy(message) => message.sanitize_result(),
            VersionedMessageView::V0(message) => message.sanitize_result(),
        }
    }

    /// The message is structurally valid.
    pub open spec fn is_sanitized(self) -> bool {
        self.sanitize_result() is Ok
    }

    /// Every list of the message is short enough for the wire format.
    pub open spec fn fits_wire(self) -> bool {
        match self {
            VersionedMessageView::Legacy(message) => message.fits_wire(),
            VersionedMessageView::V0(message) => message.fits_wire(),
        }
    }

    /// The bytes that encode the message: what is signed.
    pub open spec fn wire_bytes(self) -> Seq<u8> {
        match self {
            VersionedMessageView::Legacy(message) => legacy_message_bytes(message),
            VersionedMessageView::V0(message) => v0_message_bytes(message),
        }
    }

    /// The hash that identifies the message.
    pub open spec fn hash(self) -> crate::keys::Hash {
        message_bytes_hash(self.wire_bytes())
    }
}

/// A structurally valid message has a signer, its signers are static keys,
/// and the programs of its instructions are static keys.
pub proof fn lemma_sanitized_message_facts(message: VersionedMessageView)
    requires
        message.is_sanitized(),
    ensures
        1 <= message.header().num_required_signatures <= message.static_account_keys().len(),
        forall|i: int|
            0 <= i < message.instructions().len() ==> 0 < (
            #[trigger] message.instructions()[i]).program_id_index
                < message.static_account_keys().len(),
{
    match message {
        VersionedMessageView::Legacy(m) => {
            assert forall|i: int| 0 <= i < m.instructions.len() implies 0 < (
            #[trigger] m.instructions[i]).program_id_index < m.account_keys.len() by {
                assert(m.instructions[i].in_bounds(
                    m.account_keys.len() as int,
                    m.account_keys.len() as int,
                ));
            }
        },
        VersionedMessageView::V0(m) => {
            assert forall|i: int| 0 <= i < m.instructions.len() implies 0 < (
            #[trigger] m.instructions[i]).program_id_index < m.account_keys.len() by {
                assert(m.instructions[i].in_bounds(
                    m.account_keys.len() as int,
                    m.num_account_keys() as int,
                ));
            }
        },
    }
}

impl Clone for VersionedMessage {
    fn clone(&self) -> (r: Self)
        ensures
            r@ == self@,
    {
        match self {
            VersionedMessage::Legacy(message) => VersionedMessage::Legacy(message.clone()),
            VersionedMessage::V0(message) => VersionedMessage::V0(message.clone()),
        }
    }
}

impl Default for VersionedMessage {
    fn default() -> (r: Self)
        ensures
            r@ is Legacy,
            r@.static_account_keys().len() == 0,
            r@.instructions().len() == 0,
            r@.header() == MessageHeader::default_spec(),
    {
        VersionedMessage::Legacy(crate::legacy::Message::default())
    }
}

impl VersionedMessage {
    /// Checks that the message is structurally valid.
    pub fn sanitize(&self) -> (r: Result<(), SanitizeError>)
        ensures
            r == self@.sanitize_result(),
    {
        match self {
            VersionedMessage::Legacy(message) => message.sanitize(),
            VersionedMessage::V0(message) => message.sanitize(),
        }
    }

    /// The header of the message.
    pub fn header(&self) -> (r: &MessageHeader)
        ensures
            *r == self@.header(),
    {
        match self {
            VersionedMessage::Legacy(message) => &message.header,
            VersionedMessage::V0(message) => &message.header,
        }
    }

    /// The account keys that the message carries itself.
    pub fn static_account_keys(&self) -> (r: &Vec<Pubkey>)
        ensures
            r@ == self@.static_account_keys(),
    {
        match self {
            VersionedMessage::Legacy(message) => &message.account_keys,
            VersionedMessage::V0(message) => &message.account_keys,
        }
    }

    /// The instructions of the message.
    pub fn instructions(&self) -> (r: &Vec<CompiledInstruction>)
        ensures
            instruction_views(r@) == self@.instructions(),
    {
        match self {
            VersionedMessage::Legacy(message) => &message.instructions,
            VersionedMessage::V0(message) => &message.instructions,
        }
    }

    /// Whether every list of the message is short enough for the wire format.
    pub fn fits_wire(&self) -> (r: bool)
        ensures
            r == self@.fits_wire(),
    {
        match self {
            VersionedMessage::Legacy(message) => message.fits_wire(),
            VersionedMessage::V0(message) => message.fits_wire(),
        }
    }

    /// The bytes that encode the message: what is signed.
    pub fn serialize(&self) -> (bytes: Vec<u8>)
        requires
            self@.fits_wire(),
        ensures
            bytes@ == self@.wire_bytes(),
    {
        match self {
            VersionedMessage::Legacy(message) => serialize_legacy(message),
            VersionedMessage::V0(message) => serialize_v0(message),
        }
    }

    /// The hash that identifies the message.
    pub fn hash(&self) -> (hash: crate::keys::Hash)
        requires
            self@.fits_wire(),
        ensures
            hash == self@.hash(),
    {
        let bytes = self.serialize();
        hash_raw_message(bytes.as_slice())
    }
}

/// A message that has passed the structural checks.
#[derive(Debug, PartialEq, Eq)]
pub struct SanitizedVersionedMessage {
    message: VersionedMessage,
}

impl View for SanitizedVersionedMessage {
    type V = VersionedMessageView;

    closed spec fn view(&self) -> VersionedMessageView {
        self.message@
    }
}

impl SanitizedVersionedMessage {
    #[verifier::type_invariant]
    spec fn valid(&self) -> bool {
        self.message@.is_sanitized()
    }

    /// Checks the message and wraps it; fails as the structural check does.
    pub fn try_new(message: VersionedMessage) -> (r: Result<Self, SanitizeError>)
        ensures
            match r {
                Ok(sanitized) => message@.is_sanitized() && sanitized@ == message@,
                Err(err) => message@.sanitize_result() == Err::<(), SanitizeError>(err),
            },
    {
        match message.sanitize() {
            Ok(()) => Ok(SanitizedVersionedMessage { message }),
            Err(err) => Err(err),
        }
    }

    /// The message.
    pub fn message(&self) -> (r: &VersionedMessage)
        ensures
            r@ == self@,
            self@.is_sanitized(),
    {
        proof {
            use_type_invariant(self);
        }
        &self.message
    }

    /// Gives the message back.
    pub fn into_message(self) -> (r: VersionedMessage)
        ensures
            r@ == self@,
            self@.is_sanitized(),
    {
        proof {
            use_type_invariant(&self);
        }
        self.message
    }

    /// The instructions of the message.
    pub fn instructions(&self) -> (r: &Vec<CompiledInstruction>)
        ensures
            instruction_views(r@) == self@.instructions(),
    {
        self.message.instructions()
    }
}

} // verus!
