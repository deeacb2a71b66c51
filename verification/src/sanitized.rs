//! The sanitized transaction: a resolved message, its hash, whether it is
//! a simple vote, and its signatures.

use std::collections::HashSet;
use vstd::prelude::*;
use vstd::std_specs::convert::FromSpecImpl;
use crate::address_loader::{loaded_view, AddressLoader};
use crate::error::{AddressLoaderError, TransactionError};
use crate::keys::{Pubkey, Signature};
use crate::sanitized_message::{resolution_result, SanitizedMessage, SanitizedMessageView};
use crate::simple_vote::{is_simple_vote, is_simple_vote_transaction};
use crate::transaction::{
    sanitize_signatures_inner, signature_count_result, SanitizedVersionedTransaction, Transaction,
    TransactionView, VersionedTransaction,
};
use crate::v0::{LoadedAddresses, LoadedAddressesView};
use crate::versioned::{lemma_sanitized_message_facts, VersionedMessage};
use crate::wire::{signature_verifies, unique_hash, verify_signature};

verus! {

/// Maximum number of accounts that a transaction may lock.
pub const MAX_TX_ACCOUNT_LOCKS: usize = 128;

/// Whether the hash of the message is given or is to be computed.
#[derive(Clone, Copy, Debug, PartialEq, Eq)]
pub enum MessageHash {
    Precomputed(crate::keys::Hash),
    Compute,
}

impl From<crate::keys::Hash> for MessageHash {
    fn from(hash: crate::keys::Hash) -> (r: Self) {
        MessageHash::Precomputed(hash)
    }
}

impl FromSpecImpl<crate::keys::Hash> for MessageHash {
    open spec fn obeys_from_spec() -> bool {
        true
    }

    open spec fn from_spec(hash: crate::keys::Hash) -> Self {
        MessageHash::Precomputed(hash)
    }
}

/// Sanitized transaction and the hash of its message.
#[derive(Debug, PartialEq, Eq)]
pub struct SanitizedTransaction {
    message: SanitizedMessage,
    message_hash: crate::keys::Hash,
    is_simple_vote_tx: bool,
    signatures: Vec<Signature>,
}

/// What a sanitized transaction holds.
pub struct SanitizedTransactionView {
    pub message: SanitizedMessageView,
    pub message_hash: crate::keys::Hash,
    pub is_simple_vote_tx: bool,
    pub signatures: Seq<Signature>,
}

impl View for SanitizedTransaction {
    type V = SanitizedTransactionView;

    closed spec fn view(&self) -> SanitizedTransactionView {
        SanitizedTransactionView {
            message: self.message@,
            message_hash: self.message_hash,
            is_simple_vote_tx: self.is_simple_vote_tx,
            signatures: self.signatures@,
        }
    }
}

impl SanitizedTransactionView {
    /// The message is well formed and there are exactly as many signatures
    /// as it requires.
    pub open spec fn wf(self) -> bool {
        &&& self.message.wf()
        &&& self.signatures.len() == self.message.header().num_required_signatures
    }

    /// The transaction in the shape in which it goes over the wire: the
    /// signatures and the message as it came, without what was resolved.
    pub open spec fn wire_form(self) -> TransactionView {
        TransactionView { signatures: self.signatures, message: self.message.message }
    }

    /// The bytes that are signed.
    pub open spec fn message_data(self) -> Seq<u8> {
        self.message.message.wire_bytes()
    }

    /// Whether every signature is valid for the message bytes under the
    /// account key at the same place.
    pub open spec fn signatures_verify(self) -> bool {
        forall|i: int|
            0 <= i < self.signatures.len() && i < self.message.account_keys().len()
                ==> signature_verifies(
                #[trigger] self.signatures[i],
                self.message.account_keys()[i],
                self.message_data(),
            )
    }
}

/// The views of the two sides of a result of making a sanitized
/// transaction.
pub open spec fn outcome_view(r: Result<SanitizedTransaction, TransactionError>) -> Result<
    SanitizedTransactionView,
    TransactionError,
> {
    match r {
        Ok(tx) => Ok(tx@),
        Err(err) => Err(err),
    }
}

/// What making a sanitized transaction from a structurally valid one
/// returns, given what the address loader returned for its lookups.
pub open spec fn resolved_transaction(
    tx: TransactionView,
    message_hash: crate::keys::Hash,
    is_simple_vote_tx: bool,
    loaded: Result<LoadedAddressesView, AddressLoaderError>,
    reserved: Set<Pubkey>,
) -> Result<SanitizedTransactionView, TransactionError> {
    match resolution_result(tx.message, loaded, reserved) {
        Ok(message) => Ok(
            SanitizedTransactionView {
                message,
                message_hash,
                is_simple_vote_tx,
                signatures: tx.signatures,
            },
        ),
        Err(err) => Err(err),
    }
}

/// What making a sanitized transaction from a transaction off the wire
/// returns, given what the address loader returned for its lookups: a
/// sanitize failure if the transaction is not structurally valid, else the
/// resolved transaction, with the hash computed unless it is given, and
/// with the vote flag of the heuristic unless one is given.
pub open spec fn created_transaction(
    tx: TransactionView,
    message_hash: MessageHash,
    is_simple_vote_tx: Option<bool>,
    loaded: Result<LoadedAddressesView, AddressLoaderError>,
    reserved: Set<Pubkey>,
) -> Result<SanitizedTransactionView, TransactionError> {
    if !tx.is_sanitized() {
        Err(TransactionError::SanitizeFailure)
    } else {
        resolved_transaction(
            tx,
            match message_hash {
                MessageHash::Compute => tx.message.hash(),
                MessageHash::Precomputed(hash) => hash,
            },
            match is_simple_vote_tx {
                Some(flag) => flag,
                None => is_simple_vote(tx),
            },
            loaded,
            reserved,
        )
    }
}

/// What making a sanitized transaction from its parts returns: a sanitize
/// failure unless there are exactly as many signatures as the message
/// requires, and no more than static account keys.
pub open spec fn transaction_from_fields(
    message: SanitizedMessageView,
    message_hash: crate::keys::Hash,
    is_simple_vote_tx: bool,
    signatures: Seq<Signature>,
) -> Result<SanitizedTransactionView, TransactionError> {
    match signature_count_result(
        message.header().num_required_signatures as int,
        message.message.static_account_keys().len() as int,
        signatures.len() as int,
    ) {
        Ok(()) => Ok(
            SanitizedTransactionView { message, message_hash, is_simple_vote_tx, signatures },
        ),
        Err(_) => Err(TransactionError::SanitizeFailure),
    }
}

impl Clone for SanitizedTransaction {
    fn clone(&self) -> (r: Self)
        ensures
            r@ == self@,
    {
        proof {
            use_type_invariant(self);
        }
        SanitizedTransaction {
            message: self.message.clone(),
            message_hash: self.message_hash,
            is_simple_vote_tx: self.is_simple_vote_tx,
            signatures: self.signatures.clone(),
        }
    }
}

impl SanitizedTransaction {
    #[verifier::type_invariant]
    spec fn valid(&self) -> bool {
        self@.wf()
    }

    /// Makes a sanitized transaction from a structurally valid one, given
    /// what the address loader returned for the lookups of its message.
    /// A message in the legacy format has no lookups: for it the
    /// loader's answer is not looked at.
    pub fn try_new_resolved(
        tx: SanitizedVersionedTransaction,
        message_hash: crate::keys::Hash,
        is_simple_vote_tx: bool,
        loaded: Result<LoadedAddresses, AddressLoaderError>,
        reserved_account_keys: &HashSet<Pubkey>,
    ) -> (r: Result<Self, TransactionError>)
        ensures
            outcome_view(r) == resolved_transaction(
                tx@,
                message_hash,
                is_simple_vote_tx,
                loaded_view(loaded),
                reserved_account_keys@,
            ),
            r matches Ok(sanitized) ==> sanitized@.wf(),
    {
        let (signatures, message) = tx.destruct();
        match SanitizedMessage::resolve(message, loaded, reserved_account_keys) {
            Ok(message) => Ok(
                SanitizedTransaction { message, message_hash, is_simple_vote_tx, signatures },
            ),
            Err(err) => Err(err),
        }
    }

    /// Makes a sanitized transaction from a structurally valid one. If
    /// the message has table lookups, the loader is asked once for their
    /// addresses, and its failure is handed on unchanged. A message in the
    /// legacy format always succeeds, and the loader is not asked.
    pub fn try_new<L: AddressLoader>(
        tx: SanitizedVersionedTransaction,
        message_hash: crate::keys::Hash,
        is_simple_vote_tx: bool,
        address_loader: L,
        reserved_account_keys: &HashSet<Pubkey>,
    ) -> (r: Result<Self, TransactionError>)
        ensures
            exists|loaded: Result<LoadedAddressesView, AddressLoaderError>|
                {
                    &&& tx@.message is V0 ==> address_loader.may_answer(
                        tx@.message.address_table_lookups(),
                        loaded,
                    )
                    &&& outcome_view(r) == #[trigger] resolved_transaction(
                        tx@,
                        message_hash,
                        is_simple_vote_tx,
                        loaded,
                        reserved_account_keys@,
                    )
                },
            tx@.message is Legacy ==> outcome_view(r) == resolved_transaction(
                tx@,
                message_hash,
                is_simple_vote_tx,
                Ok(LoadedAddressesView::empty()),
                reserved_account_keys@,
            ),
            r matches Ok(sanitized) ==> sanitized@.wf(),
    {
        let loaded = match tx.get_message().message() {
            VersionedMessage::Legacy(_) => Ok(LoadedAddresses::default()),
            VersionedMessage::V0(message) => address_loader.load_addresses(
                message.address_table_lookups.as_slice(),
            ),
        };
        let ghost answer = loaded_view(loaded);
        let r = Self::try_new_resolved(
            tx,
            message_hash,
            is_simple_vote_tx,
            loaded,
            reserved_account_keys,
        );
        assert(outcome_view(r) == resolved_transaction(
            tx@,
            message_hash,
            is_simple_vote_tx,
            answer,
            reserved_account_keys@,
        ));
        r
    }

    /// Makes a sanitized transaction from a transaction off the wire,
    /// given what the address loader returned for the lookups of its
    /// message. A structurally valid message must fit the wire format if
    /// its hash is to be computed.
    pub fn try_create_resolved(
        tx: VersionedTransaction,
        message_hash: MessageHash,
        is_simple_vote_tx: Option<bool>,
        loaded: Result<LoadedAddresses, AddressLoaderError>,
        reserved_account_keys: &HashSet<Pubkey>,
    ) -> (r: Result<Self, TransactionError>)
        requires
            message_hash is Compute && tx@.is_sanitized() ==> tx@.message.fits_wire(),
        ensures
            outcome_view(r) == created_transaction(
                tx@,
                message_hash,
                is_simple_vote_tx,
                loaded_view(loaded),
                reserved_account_keys@,
            ),
            r matches Ok(sanitized) ==> sanitized@.wf(),
    {
        let sanitized_versioned_tx = match SanitizedVersionedTransaction::try_new(tx) {
            Ok(sanitized) => sanitized,
            Err(err) => {
                return Err(TransactionError::from(err));
            },
        };
        let is_simple_vote_tx = match is_simple_vote_tx {
            Some(flag) => flag,
            None => is_simple_vote_transaction(&sanitized_versioned_tx),
        };
        let message_hash = match message_hash {
            MessageHash::Compute => sanitized_versioned_tx.get_message().message().hash(),
            MessageHash::Precomputed(hash) => hash,
        };
        Self::try_new_resolved(
            sanitized_versioned_tx,
            message_hash,
            is_simple_vote_tx,
            loaded,
            reserved_account_keys,
        )
    }

    /// Makes a sanitized transaction from a transaction off the wire:
    /// checks its structure, takes the vote flag of the heuristic unless
    /// one is given, computes the hash of the message unless one is given,
    /// and resolves the message, asking the loader if the message is
    /// structurally valid and has table lookups. A structurally valid
    /// message must fit the wire format if its hash is to be computed.
    pub fn try_create<L: AddressLoader>(
        tx: VersionedTransaction,
        message_hash: MessageHash,
        is_simple_vote_tx: Option<bool>,
        address_loader: L,
        reserved_account_keys: &HashSet<Pubkey>,
    ) -> (r: Result<Self, TransactionError>)
        requires
            message_hash is Compute && tx@.is_sanitized() ==> tx@.message.fits_wire(),
        ensures
            exists|loaded: Result<LoadedAddressesView, AddressLoaderError>|
                {
                    &&& tx@.is_sanitized() && tx@.message is V0 ==> address_loader.may_answer(
                        tx@.message.address_table_lookups(),
                        loaded,
                    )
                    &&& outcome_view(r) == #[trigger] created_transaction(
                        tx@,
                        message_hash,
                        is_simple_vote_tx,
                        loaded,
                        reserved_account_keys@,
                    )
                },
            tx@.message is Legacy ==> outcome_view(r) == created_transaction(
                tx@,
                message_hash,
                is_simple_vote_tx,
                Ok(LoadedAddressesView::empty()),
                reserved_account_keys@,
            ),
            r matches Ok(sanitized) ==> sanitized@.wf(),
    {
        let sanitized_versioned_tx = match SanitizedVersionedTransaction::try_new(tx) {
            Ok(sanitized) => sanitized,
            Err(err) => {
                assert(created_transaction(
                    tx@,
                    message_hash,
                    is_simple_vote_tx,
                    Ok(LoadedAddressesView::empty()),
                    reserved_account_keys@,
                ) == Err::<SanitizedTransactionView, TransactionError>(
                    TransactionError::SanitizeFailure,
                ));
                return Err(TransactionError::from(err));
            },
        };
        let vote_flag = match is_simple_vote_tx {
            Some(flag) => flag,
            None => is_simple_vote_transaction(&sanitized_versioned_tx),
        };
        let hash = match message_hash {
            MessageHash::Compute => sanitized_versioned_tx.get_message().message().hash(),
            MessageHash::Precomputed(hash) => hash,
        };
        let r = Self::try_new(
            sanitized_versioned_tx,
            hash,
            vote_flag,
            address_loader,
            reserved_account_keys,
        );
        proof {
            let loaded = choose|loaded: Result<LoadedAddressesView, AddressLoaderError>|
                {
                    &&& tx@.message is V0 ==> address_loader.may_answer(
                        tx@.message.address_table_lookups(),
                        loaded,
                    )
                    &&& outcome_view(r) == #[trigger] resolved_transaction(
                        tx@,
                        hash,
                        vote_flag,
                        loaded,
                        reserved_account_keys@,
                    )
                };
            assert(outcome_view(r) == created_transaction(
                tx@,
                message_hash,
                is_simple_vote_tx,
                loaded,
                reserved_account_keys@,
            ));
        }
        r
    }
}

/// Set of accounts that must be locked for safe transaction processing.
#[derive(Debug, PartialEq, Eq)]
pub struct TransactionAccountLocks<'a> {
    /// List of readonly account key locks.
    pub readonly: Vec<&'a Pubkey>,
    /// List of writable account key locks.
    pub writable: Vec<&'a Pubkey>,
}

/// The keys that a set of account locks holds.
pub struct TransactionAccountLocksView {
    pub readonly: Seq<Pubkey>,
    pub writable: Seq<Pubkey>,
}

/// The keys that a list of borrowed keys refers to.
pub open spec fn borrowed_keys(keys: Seq<&Pubkey>) -> Seq<Pubkey> {
    Seq::new(keys.len(), |i: int| *keys[i])
}

impl<'a> View for TransactionAccountLocks<'a> {
    type V = TransactionAccountLocksView;

    open spec fn view(&self) -> TransactionAccountLocksView {
        TransactionAccountLocksView {
            readonly: borrowed_keys(self.readonly@),
            writable: borrowed_keys(self.writable@),
        }
    }
}

impl<'a> Clone for TransactionAccountLocks<'a> {
    fn clone(&self) -> (r: Self)
        ensures
            r@ == self@,
    {
        let r = TransactionAccountLocks {
            readonly: self.readonly.clone(),
            writable: self.writable.clone(),
        };
        assert(r@.readonly =~= self@.readonly);
        assert(r@.writable =~= self@.writable);
        r
    }
}

impl<'a> Default for TransactionAccountLocks<'a> {
    fn default() -> (r: Self)
        ensures
            r@.readonly.len() == 0,
            r@.writable.len() == 0,
    {
        TransactionAccountLocks { readonly: Vec::new(), writable: Vec::new() }
    }
}

/// The keys among the first `count` of the message that are writable, or
/// those that are not, in the order of the key list.
pub open spec fn locked_keys(message: SanitizedMessageView, count: nat, writable: bool) -> Seq<
    Pubkey,
>
    decreases count,
{
    if count == 0 {
        Seq::empty()
    } else {
        let rest = locked_keys(message, (count - 1) as nat, writable);
        if message.writable(count - 1) == writable {
            rest.push(message.account_keys()[count - 1])
        } else {
            rest
        }
    }
}

/// The account locks of a message: every key of the full list, the
/// writable ones on one side and the others on the other.
pub open spec fn account_locks(message: SanitizedMessageView) -> TransactionAccountLocksView {
    TransactionAccountLocksView {
        readonly: locked_keys(message, message.account_keys().len(), false),
        writable: locked_keys(message, message.account_keys().len(), true),
    }
}

/// What validating the account locks of a message returns: no key may
/// occur twice, and then there may be no more keys than the limit.
pub open spec fn validate_locks_result(message: SanitizedMessageView, limit: int) -> Result<
    (),
    TransactionError,
> {
    if message.has_duplicates() {
        Err(TransactionError::AccountLoadedTwice)
    } else if message.account_keys().len() > limit {
        Err(TransactionError::TooManyAccountLocks)
    } else {
        Ok(())
    }
}

impl SanitizedTransaction {
    /// Makes a sanitized transaction from a transaction with a message in
    /// the legacy format: checks its structure and computes the hash of
    /// its message. It is not a simple vote. A structurally valid message
    /// must fit the wire format.
    pub fn try_from_legacy_transaction(tx: Transaction, reserved_account_keys: &HashSet<Pubkey>) -> (r:
        Result<Self, TransactionError>)
        requires
            tx@.is_sanitized() ==> tx@.message.fits_wire(),
        ensures
            outcome_view(r) == created_transaction(
                tx@,
                MessageHash::Compute,
                Some(false),
                Ok(LoadedAddressesView::empty()),
                reserved_account_keys@,
            ),
            r matches Ok(sanitized) ==> sanitized@.wf(),
    {
        Self::try_create_resolved(
            VersionedTransaction::from_legacy(tx),
            MessageHash::Compute,
            Some(false),
            Ok(LoadedAddresses::default()),
            reserved_account_keys,
        )
    }

    /// Makes a sanitized transaction from a structurally valid transaction
    /// with a message in the legacy format, with no reserved key.
    pub fn from_transaction_for_tests(tx: Transaction) -> (r: Self)
        requires
            tx@.is_sanitized(),
            tx@.message.fits_wire(),
        ensures
            Ok::<SanitizedTransactionView, TransactionError>(r@) == created_transaction(
                tx@,
                MessageHash::Compute,
                Some(false),
                Ok(LoadedAddressesView::empty()),
                Set::empty(),
            ),
            r@.wf(),
    {
        let empty_key_set: HashSet<Pubkey> = HashSet::new();
        match Self::try_from_legacy_transaction(tx, &empty_key_set) {
            Ok(sanitized) => sanitized,
            Err(_) => vstd::pervasive::unreached(),
        }
    }

    /// Makes a sanitized transaction from its parts. Checks only the
    /// number of signatures.
    pub fn try_new_from_fields(
        message: SanitizedMessage,
        message_hash: crate::keys::Hash,
        is_simple_vote_tx: bool,
        signatures: Vec<Signature>,
    ) -> (r: Result<Self, TransactionError>)
        ensures
            outcome_view(r) == transaction_from_fields(
                message@,
                message_hash,
                is_simple_vote_tx,
                signatures@,
            ),
            r matches Ok(sanitized) ==> sanitized@.wf(),
    {
        message.well_formed();
        match sanitize_signatures_inner(
            message.header().num_required_signatures as usize,
            message.static_account_keys().len(),
            signatures.len(),
        ) {
            Err(err) => Err(TransactionError::from(err)),
            Ok(()) => Ok(
                SanitizedTransaction { message, message_hash, signatures, is_simple_vote_tx },
            ),
        }
    }

    /// Makes a sanitized transaction with a fresh hash, without any check.
    /// There must be exactly as many signatures as the message requires.
    pub fn new_for_tests(
        message: SanitizedMessage,
        signatures: Vec<Signature>,
        is_simple_vote_tx: bool,
    ) -> (r: Self)
        requires
            signatures@.len() == message@.header().num_required_signatures,
        ensures
            r@.message == message@,
            r@.signatures == signatures@,
            r@.is_simple_vote_tx == is_simple_vote_tx,
            r@.wf(),
    {
        message.well_formed();
        SanitizedTransaction { message, message_hash: unique_hash(), signatures, is_simple_vote_tx }
    }

    /// States what holds of every sanitized transaction: it is well
    /// formed, so it has at least one signature, and each signature has
    /// its account key.
    pub fn well_formed(&self)
        ensures
            self@.wf(),
            1 <= self@.signatures.len() <= self@.message.message.static_account_keys().len(),
            self@.signatures.len() <= self@.message.account_keys().len() <= usize::MAX,
    {
        proof {
            use_type_invariant(self);
            lemma_sanitized_message_facts(self@.message.message);
        }
        self.message.well_formed();
    }

    /// The first signature of the transaction: the fee payer's.
    pub fn signature(&self) -> (r: &Signature)
        ensures
            self@.signatures.len() > 0,
            *r == self@.signatures[0],
    {
        self.well_formed();
        &self.signatures[0]
    }

    /// The signatures of the transaction.
    pub fn signatures(&self) -> (r: &[Signature])
        ensures
            r@ == self@.signatures,
    {
        self.signatures.as_slice()
    }

    /// The signed message.
    pub fn message(&self) -> (r: &SanitizedMessage)
        ensures
            r@ == self@.message,
    {
        &self.message
    }

    /// The hash of the signed message.
    pub fn message_hash(&self) -> (r: &crate::keys::Hash)
        ensures
            *r == self@.message_hash,
    {
        &self.message_hash
    }

    /// Whether the transaction counts as a simple vote.
    pub fn is_simple_vote_transaction(&self) -> (r: bool)
        ensures
            r == self@.is_simple_vote_tx,
    {
        self.is_simple_vote_tx
    }

    /// The transaction in the shape in which it goes over the wire: a copy
    /// of the signatures and of the message as it came. Addresses that
    /// were resolved are left out.
    pub fn to_versioned_transaction(&self) -> (r: VersionedTransaction)
        ensures
            r@ == self@.wire_form(),
    {
        VersionedTransaction {
            signatures: self.signatures.clone(),
            message: self.message.to_versioned_message(),
        }
    }

    /// Validates a message against the limit of account locks.
    pub fn validate_account_locks(message: &SanitizedMessage, tx_account_lock_limit: usize) -> (r:
        Result<(), TransactionError>)
        ensures
            r == validate_locks_result(message@, tx_account_lock_limit as int),
    {
        if message.has_duplicates() {
            Err(TransactionError::AccountLoadedTwice)
        } else if message.account_keys().len() > tx_account_lock_limit {
            Err(TransactionError::TooManyAccountLocks)
        } else {
            Ok(())
        }
    }

    /// The account keys that the transaction locks, without validation.
    pub fn get_account_locks_unchecked(&self) -> (locks: TransactionAccountLocks<'_>)
        ensures
            locks@ == account_locks(self@.message),
            locks@.writable.len() + locks@.readonly.len() == self@.message.account_keys().len(),
    {
        let message = &self.message;
        let account_keys = message.account_keys();
        let num_keys = account_keys.len();
        let num_readonly_accounts = message.num_readonly_accounts();
        let num_writable_accounts = num_keys.saturating_sub(num_readonly_accounts);
        let mut writable: Vec<&Pubkey> = Vec::with_capacity(num_writable_accounts);
        let mut readonly: Vec<&Pubkey> = Vec::with_capacity(num_readonly_accounts);
        let mut i: usize = 0;
        while i < num_keys
            invariant
                i <= num_keys,
                num_keys == account_keys@.len(),
                account_keys@ == message@.account_keys(),
                borrowed_keys(writable@) == locked_keys(message@, i as nat, true),
                borrowed_keys(readonly@) == locked_keys(message@, i as nat, false),
                writable@.len() + readonly@.len() == i,
            decreases num_keys - i,
        {
            match account_keys.get(i) {
                Some(key) => {
                    if message.is_writable(i) {
                        proof {
                            assert(borrowed_keys(writable@.push(key)) =~= borrowed_keys(
                                writable@,
                            ).push(*key));
                        }
                        writable.push(key);
                    } else {
                        proof {
                            assert(borrowed_keys(readonly@.push(key)) =~= borrowed_keys(
                                readonly@,
                            ).push(*key));
                        }
                        readonly.push(key);
                    }
                },
                None => {},
            }
            i += 1;
        }
        TransactionAccountLocks { readonly, writable }
    }

    /// Validates the account locks and returns the account keys that the
    /// transaction locks.
    pub fn get_account_locks(&self, tx_account_lock_limit: usize) -> (r: Result<
        TransactionAccountLocks<'_>,
        TransactionError,
    >)
        ensures
            match r {
                Ok(locks) => validate_locks_result(self@.message, tx_account_lock_limit as int)
                    is Ok && locks@ == account_locks(self@.message),
                Err(err) => validate_locks_result(self@.message, tx_account_lock_limit as int)
                    == Err::<(), TransactionError>(err),
            },
    {
        match Self::validate_account_locks(&self.message, tx_account_lock_limit) {
            Err(err) => Err(err),
            Ok(()) => Ok(self.get_account_locks_unchecked()),
        }
    }

    /// The addresses loaded from on-chain address lookup tables: none for
    /// a message in the legacy format.
    pub fn get_loaded_addresses(&self) -> (r: LoadedAddresses)
        ensures
            r@ == self@.message.loaded_addresses,
    {
        self.message.well_formed();
        match self.message.loaded_lookup_table_addresses() {
            None => LoadedAddresses::default(),
            Some(addresses) => addresses.clone(),
        }
    }

    /// If the transaction uses a durable nonce, the key of the nonce
    /// account.
    pub fn get_durable_nonce(&self) -> (r: Option<&Pubkey>)
        ensures
            match r {
                Some(key) => self@.message.durable_nonce() == Some(*key),
                None => self@.message.durable_nonce() is None,
            },
    {
        self.message.get_durable_nonce()
    }

    /// The serialized message data to sign. The message must fit the wire
    /// format.
    pub fn message_data(&self) -> (bytes: Vec<u8>)
        requires
            self@.message.message.fits_wire(),
        ensures
            bytes@ == self@.message_data(),
    {
        self.message.serialize()
    }

    /// Verifies the transaction signatures: each against the message data
    /// under the account key at the same place. The message must fit the
    /// wire format.
    pub fn verify(&self) -> (r: Result<(), TransactionError>)
        requires
            self@.message.message.fits_wire(),
        ensures
            r is Ok <==> self@.signatures_verify(),
            r is Err ==> r == Err::<(), TransactionError>(TransactionError::SignatureFailure),
    {
        self.well_formed();
        let message_bytes = self.message_data();
        let account_keys = self.message.account_keys();
        let mut i: usize = 0;
        while i < self.signatures.len()
            invariant
                i <= self.signatures.len(),
                self.signatures@ == self@.signatures,
                self@.signatures.len() <= self@.message.account_keys().len(),
                account_keys@ == self@.message.account_keys(),
                message_bytes@ == self@.message_data(),
                forall|k: int|
                    0 <= k < i ==> signature_verifies(
                        #[trigger] self@.signatures[k],
                        self@.message.account_keys()[k],
                        self@.message_data(),
                    ),
            decreases self.signatures.len() - i,
        {
            match account_keys.get(i) {
                Some(pubkey) => {
                    if !verify_signature(&self.signatures[i], pubkey, message_bytes.as_slice()) {
                        assert(!signature_verifies(
                            self@.signatures[i as int],
                            self@.message.account_keys()[i as int],
                            self@.message_data(),
                        ));
                        return Err(TransactionError::SignatureFailure);
                    }
                },
                None => {},
            }
            i += 1;
        }
        Ok(())
    }
}

} // verus!
