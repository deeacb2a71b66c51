//! What holds of sanitized transactions in general.

use vstd::prelude::*;
use vstd::multiset::Multiset;
use crate::error::{AddressLoaderError, TransactionError};
use crate::keys::{Pubkey, Signature};
use crate::sanitized::{
    account_locks, created_transaction, locked_keys, resolved_transaction, transaction_from_fields,
    validate_locks_result, MessageHash, SanitizedTransactionView,
};
use crate::sanitized_message::{
    loaded_writable_count, resolved_view, writable_position, SanitizedMessageView,
};
use crate::simple_vote::is_simple_vote;
use crate::transaction::TransactionView;
use crate::v0::LoadedAddressesView;
use crate::versioned::{lemma_sanitized_message_facts, VersionedMessageView};
use crate::wire::signature_verifies;

verus! {

/// A sanitized transaction is made from its parts exactly when there are
/// as many signatures as the message requires: one fewer or one more is a
/// sanitize failure, like any other number.
pub proof fn law_signature_count_decides(
    message: SanitizedMessageView,
    message_hash: crate::keys::Hash,
    is_simple_vote_tx: bool,
    signatures: Seq<Signature>,
)
    requires
        message.wf(),
    ensures
        signatures.len() == message.header().num_required_signatures ==> transaction_from_fields(
            message,
            message_hash,
            is_simple_vote_tx,
            signatures,
        ) == Ok::<SanitizedTransactionView, TransactionError>(
            SanitizedTransactionView { message, message_hash, is_simple_vote_tx, signatures },
        ),
        signatures.len() != message.header().num_required_signatures ==> transaction_from_fields(
            message,
            message_hash,
            is_simple_vote_tx,
            signatures,
        ) == Err::<SanitizedTransactionView, TransactionError>(TransactionError::SanitizeFailure),
{
    lemma_sanitized_message_facts(message.message);
}

/// A well-formed sanitized transaction has at least one signature, and a
/// static account key for each signature.
pub proof fn law_signers_have_keys(tx: SanitizedTransactionView)
    requires
        tx.wf(),
    ensures
        1 <= tx.signatures.len() <= tx.message.message.static_account_keys().len(),
        tx.message.message.static_account_keys().len() <= tx.message.account_keys().len(),
        forall|i: int|
            0 <= i < tx.signatures.len() ==> tx.message.account_keys()[i]
                == tx.message.message.static_account_keys()[i],
{
    lemma_sanitized_message_facts(tx.message.message);
}

/// The signatures of a well-formed sanitized transaction verify exactly
/// when each of the required signatures is valid for the message bytes
/// under the static account key at the same place.
pub proof fn law_verify_covers_signers(tx: SanitizedTransactionView)
    requires
        tx.wf(),
    ensures
        tx.signatures_verify() <==> forall|i: int|
            0 <= i < tx.message.header().num_required_signatures ==> signature_verifies(
                #[trigger] tx.signatures[i],
                tx.message.message.static_account_keys()[i],
                tx.message_data(),
            ),
{
    law_signers_have_keys(tx);
}

/// A reserved key is never writable in a resolved message, whatever its
/// place in the key list, and no key is writable whose place the header
/// makes read-only.
pub proof fn law_reserved_keys_are_not_writable(
    message: VersionedMessageView,
    loaded: LoadedAddressesView,
    reserved: Set<Pubkey>,
    index: int,
)
    requires
        0 <= index < resolved_view(message, loaded, reserved).account_keys().len(),
    ensures
        reserved.contains(resolved_view(message, loaded, reserved).account_keys()[index])
            ==> !resolved_view(message, loaded, reserved).writable(index),
        resolved_view(message, loaded, reserved).writable(index) ==> writable_position(
            message.header(),
            message.static_account_keys().len() as int,
            loaded_writable_count(message, loaded),
            index,
        ),
{
}

/// Among the first `count` keys, each is locked either as writable or as
/// read-only: the two lists have `count` keys together.
pub proof fn law_locks_count(message: SanitizedMessageView, count: nat)
    ensures
        locked_keys(message, count, true).len() + locked_keys(message, count, false).len() == count,
    decreases count,
{
    if count > 0 {
        law_locks_count(message, (count - 1) as nat);
    }
}

/// The writable and the read-only locks of the first `count` keys hold
/// exactly those keys, each as often as it occurs among them.
pub proof fn law_locks_hold_first_keys(message: SanitizedMessageView, count: nat)
    requires
        count <= message.account_keys().len(),
    ensures
        locked_keys(message, count, true).to_multiset().add(
            locked_keys(message, count, false).to_multiset(),
        ) == message.account_keys().take(count as int).to_multiset(),
    decreases count,
{
    broadcast use vstd::multiset::group_multiset_axioms;
    broadcast use vstd::seq_lib::to_multiset_build;

    let keys = message.account_keys();
    if count == 0 {
        let none = Seq::<Pubkey>::empty();
        assert(keys.take(0) =~= none);
        assert(locked_keys(message, 0, true) =~= none);
        assert(locked_keys(message, 0, false) =~= none);
        none.to_multiset_ensures();
        assert(none.to_multiset().len() == 0);
        assert(none.to_multiset() =~= Multiset::<Pubkey>::empty());
        assert(none.to_multiset().add(none.to_multiset()) =~= none.to_multiset());
    } else {
        let before = (count - 1) as nat;
        law_locks_hold_first_keys(message, before);
        let key = keys[count - 1];
        assert(keys.take(count as int) =~= keys.take(before as int).push(key));
        let writable = locked_keys(message, before, true);
        let readonly = locked_keys(message, before, false);
        if message.writable(count - 1) {
            assert(writable.push(key).to_multiset().add(readonly.to_multiset())
                =~= writable.to_multiset().add(readonly.to_multiset()).insert(key));
        } else {
            assert(writable.to_multiset().add(readonly.push(key).to_multiset())
                =~= writable.to_multiset().add(readonly.to_multiset()).insert(key));
        }
    }
}

/// The account locks partition the keys of the message: every key is in
/// exactly one of the two lists, so the lists have as many keys together as
/// the message, and hold each key as often as the message does.
pub proof fn law_locks_partition(message: SanitizedMessageView)
    ensures
        account_locks(message).writable.len() + account_locks(message).readonly.len()
            == message.account_keys().len(),
        account_locks(message).writable.to_multiset().add(
            account_locks(message).readonly.to_multiset(),
        ) == message.account_keys().to_multiset(),
{
    let keys = message.account_keys();
    law_locks_count(message, keys.len());
    law_locks_hold_first_keys(message, keys.len());
    assert(keys.take(keys.len() as int) =~= keys);
}

/// Validating the locks fails with a key loaded twice exactly when some
/// key occurs at two places of the full key list.
pub proof fn law_duplicate_keys_rejected(message: SanitizedMessageView, limit: int)
    ensures
        validate_locks_result(message, limit) == Err::<(), TransactionError>(
            TransactionError::AccountLoadedTwice,
        ) <==> exists|i: int, j: int|
            0 <= i < j < message.account_keys().len() && message.account_keys()[i]
                == message.account_keys()[j],
{
    let keys = message.account_keys();
    if !keys.no_duplicates() {
        let (a, b) = choose|a: int, b: int|
            0 <= a < keys.len() && 0 <= b < keys.len() && a != b && keys[a] == keys[b];
        if a < b {
            assert(0 <= a < b < keys.len() && keys[a] == keys[b]);
        } else {
            assert(0 <= b < a < keys.len() && keys[b] == keys[a]);
        }
    }
}

/// Whether a list of keys has a key twice does not depend on the order of
/// the keys.
pub proof fn law_duplicates_ignore_order(first: Seq<Pubkey>, second: Seq<Pubkey>)
    requires
        first.to_multiset() == second.to_multiset(),
    ensures
        first.no_duplicates() == second.no_duplicates(),
{
    if first.no_duplicates() {
        first.lemma_multiset_has_no_duplicates();
        second.lemma_multiset_has_no_duplicates_conv();
    }
    if second.no_duplicates() {
        second.lemma_multiset_has_no_duplicates();
        first.lemma_multiset_has_no_duplicates_conv();
    }
}

/// Two messages with the same keys, in whatever order, fare alike when
/// their locks are validated.
pub proof fn law_validation_ignores_order(
    first: SanitizedMessageView,
    second: SanitizedMessageView,
    limit: int,
)
    requires
        first.account_keys().to_multiset() == second.account_keys().to_multiset(),
    ensures
        validate_locks_result(first, limit) == validate_locks_result(second, limit),
{
    broadcast use vstd::seq_lib::to_multiset_len;

    law_duplicates_ignore_order(first.account_keys(), second.account_keys());
    assert(first.account_keys().len() == first.account_keys().to_multiset().len());
    assert(second.account_keys().len() == second.account_keys().to_multiset().len());
}

/// Where no key occurs twice, validating the locks fails with too many
/// account locks exactly when there are more keys than the limit.
pub proof fn law_lock_limit(message: SanitizedMessageView, limit: int)
    requires
        !message.has_duplicates(),
    ensures
        validate_locks_result(message, limit) == Err::<(), TransactionError>(
            TransactionError::TooManyAccountLocks,
        ) <==> message.account_keys().len() > limit,
        validate_locks_result(message, limit) is Ok <==> message.account_keys().len() <= limit,
{
}

/// A sanitized transaction made from a transaction off the wire gives the
/// same transaction back in wire form: the same signatures and the same
/// message, with its lookups and without the addresses they resolved to.
pub proof fn law_wire_round_trip(
    tx: TransactionView,
    message_hash: MessageHash,
    is_simple_vote_tx: Option<bool>,
    loaded: Result<LoadedAddressesView, AddressLoaderError>,
    reserved: Set<Pubkey>,
)
    ensures
        created_transaction(tx, message_hash, is_simple_vote_tx, loaded, reserved) matches Ok(
            sanitized,
        ) ==> sanitized.wire_form() == tx,
        forall|hash: crate::keys::Hash, flag: bool| #[trigger]
            resolved_transaction(tx, hash, flag, loaded, reserved) matches Ok(sanitized)
                ==> sanitized.wire_form() == tx,
{
}

/// The vote flag of a sanitized transaction made from a transaction off
/// the wire is the one given, whatever the heuristic says; where none is
/// given it is what the heuristic says, which is never a simple vote for
/// three signatures or more.
pub proof fn law_vote_flag(
    tx: TransactionView,
    message_hash: MessageHash,
    is_simple_vote_tx: Option<bool>,
    loaded: Result<LoadedAddressesView, AddressLoaderError>,
    reserved: Set<Pubkey>,
)
    ensures
        created_transaction(tx, message_hash, is_simple_vote_tx, loaded, reserved) matches Ok(
            sanitized,
        ) ==> sanitized.is_simple_vote_tx == match is_simple_vote_tx {
            Some(flag) => flag,
            None => is_simple_vote(tx),
        },
        tx.signatures.len() >= 3 ==> !is_simple_vote(tx),
{
}

/// A transaction off the wire becomes a sanitized transaction exactly when
/// it is structurally valid and, if its message has lookups, the loader
/// resolved them; the result is then well formed.
pub proof fn law_creation_succeeds(
    tx: TransactionView,
    message_hash: MessageHash,
    is_simple_vote_tx: Option<bool>,
    loaded: Result<LoadedAddressesView, AddressLoaderError>,
    reserved: Set<Pubkey>,
)
    ensures
        created_transaction(tx, message_hash, is_simple_vote_tx, loaded, reserved) is Ok <==> (
        tx.is_sanitized() && (tx.message is V0 ==> loaded is Ok)),
        created_transaction(tx, message_hash, is_simple_vote_tx, loaded, reserved) matches Ok(
            sanitized,
        ) ==> sanitized.wf(),
{
}

} // verus!
