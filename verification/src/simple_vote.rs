//! Tells the transactions whose sole purpose is to cast a vote.

use vstd::prelude::*;
use crate::program_ids::{check_vote_program, is_vote_program};
use crate::transaction::{SanitizedVersionedTransaction, TransactionView};
use crate::versioned::{lemma_sanitized_message_facts, VersionedMessage};

verus! {

/// Whether a structurally valid transaction is a simple vote: it has
/// fewer than three signatures, its message is in the legacy format, and
/// its single instruction is for the vote program.
pub open spec fn is_simple_vote(tx: TransactionView) -> bool {
    &&& tx.signatures.len() < 3
    &&& tx.message is Legacy
    &&& tx.message.instructions().len() == 1
    &&& is_vote_program(
        tx.message.static_account_keys()[tx.message.instructions()[0].program_id_index as int],
    )
}

/// Whether the transaction is a simple vote.
pub fn is_simple_vote_transaction(tx: &SanitizedVersionedTransaction) -> (r: bool)
    ensures
        r == is_simple_vote(tx@),
{
    let message = tx.get_message().message();
    let is_legacy = match message {
        VersionedMessage::Legacy(_) => true,
        VersionedMessage::V0(_) => false,
    };
    let instructions = message.instructions();
    if tx.signatures().len() >= 3 || !is_legacy || instructions.len() != 1 {
        return false;
    }
    proof {
        lemma_sanitized_message_facts(tx@.message);
        assert(tx@.message.instructions()[0] == instructions@[0]@);
    }
    let keys = message.static_account_keys();
    check_vote_program(&keys[instructions[0].program_id_index as usize])
}

} // verus!
