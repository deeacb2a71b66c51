//! Transactions as they come off the wire: signatures and a message, with
//! the check that the two fit together.

use vstd::prelude::*;
use crate::error::SanitizeError;
use crate::keys::Signature;
use crate::versioned::{SanitizedVersionedMessage, VersionedMessage, VersionedMessageView};

verus! {

/// What a transaction holds: its signatures and its message.
pub struct TransactionView {
    pub signatures: Seq<Signature>,
    pub message: VersionedMessageView,
}

/// What checking the number of signatures returns: there must be exactly
/// as many as the message requires, and no more than static account keys.
pub open spec fn signature_count_result(
    num_required_signatures: int,
    num_static_account_keys: int,
    num_signatures: int,
) -> Result<(), SanitizeError> {
    if num_required_signatures > num_signatures {
        Err(SanitizeError::IndexOutOfBounds)
    } else if num_required_signatures < num_signatures {
        Err(SanitizeError::InvalidValue)
    } else if num_signatures > num_static_account_keys {
        Err(SanitizeError::IndexOutOfBounds)
    } else {
        Ok(())
    }
}

/// Checks the number of signatures against what the message requires and
/// against the number of static account keys.
pub fn sanitize_signatures_inner(
    num_required_signatures: usize,
    num_static_account_keys: usize,
    num_signatures: usize,
) -> (r: Result<(), SanitizeError>)
    ensures
        r == signature_count_result(
            num_required_signatures as int,
            num_static_account_keys as int,
            num_signatures as int,
        ),
{
    if num_required_signatures > num_signatures {
        return Err(SanitizeError::IndexOutOfBounds);
    }
    if num_required_signatures < num_signatures {
        return Err(SanitizeError::InvalidValue);
    }
    if num_signatures > num_static_account_keys {
        return Err(SanitizeError::IndexOutOfBounds);
    }
    Ok(())
}

impl TransactionView {
    /// What checking the number of signatures of the transaction returns.
    pub open spec fn sanitize_signatures_result(self) -> Result<(), SanitizeError> {
        signature_count_result(
            self.message.header().num_required_signatures as int,
            self.message.static_account_keys().len() as int,
            self.signatures.len() as int,
        )
    }

    /// What sanitizing the transaction returns: the failure of the
    /// signature count, or else that of the message, or else success.
    pub open spec fn sanitize_result(self) -> Result<(), SanitizeError> {
        match self.sanitize_signatures_result() {
            Err(err) => Err(err),
            Ok(()) => self.message.sanitize_result(),
        }
    }

    /// The transaction is structurally valid.
    pub open spec fn is_sanitized(self) -> bool {
        self.sanitize_result() is Ok
    }
}

/// A transaction with a message in the legacy format.
#[derive(Debug, PartialEq, Eq)]
pub struct Transaction {
    /// The signatures, one for each signer of the message, in order.
    pub signatures: Vec<Signature>,
    /// The message to sign.
    pub message: crate::legacy::Message,
}

impl View for Transaction {
    type V = TransactionView;

    open spec fn view(&self) -> TransactionView {
        TransactionView {
            signatures: self.signatures@,
            message: VersionedMessageView::Legacy(self.message@),
        }
    }
}

impl Clone for Transaction {
    fn clone(&self) -> (r: Self)
        ensures
            r@ == self@,
    {
        Transaction { signatures: self.signatures.clone(), message: self.message.clone() }
    }
}

impl Transaction {
    /// Checks that the transaction is structurally valid.
    pub fn sanitize(&self) -> (r: Result<(), SanitizeError>)
        ensures
            r == self@.sanitize_result(),
    {
        match sanitize_signatures_inner(
            self.message.header.num_required_signatures as usize,
            self.message.account_keys.len(),
            self.signatures.len(),
        ) {
            Err(err) => Err(err),
            Ok(()) => self.message.sanitize(),
        }
    }
}

/// A transaction with a message in either format.
#[derive(Debug, PartialEq, Eq)]
pub struct VersionedTransaction {
    /// The signatures, one for each signer of the message, in order.
    pub signatures: Vec<Signature>,
    /// The message to sign.
    pub message: VersionedMessage,
}

impl View for VersionedTransaction {
    type V = TransactionView;

    open spec fn view(&self) -> TransactionView {
        TransactionView { signatures: self.signatures@, message: self.message@ }
    }
}

impl Clone for VersionedTransaction {
    fn clone(&self) -> (r: Self)
        ensures
            r@ == self@,
    {
        VersionedTransaction { signatures: self.signatures.clone(), message: self.message.clone() }
    }
}

impl VersionedTransaction {
    /// The same transaction, its message marked as being in the legacy
    /// format.
    pub fn from_legacy(transaction: Transaction) -> (r: Self)
        ensures
            r@ == transaction@,
    {
        VersionedTransaction {
            signatures: transaction.signatures,
            message: VersionedMessage::Legacy(transaction.message),
        }
    }

    /// Checks the number of signatures of the transaction.
    pub fn sanitize_signatures(&self) -> (r: Result<(), SanitizeError>)
        ensures
            r == self@.sanitize_signatures_result(),
    {
        sanitize_signatures_inner(
            self.message.header().num_required_signatures as usize,
            self.message.static_account_keys().len(),
            self.signatures.len(),
        )
    }

    /// Checks that the transaction is structurally valid.
    pub fn sanitize(&self) -> (r: Result<(), SanitizeError>)
        ensures
            r == self@.sanitize_result(),
    {
        match self.sanitize_signatures() {
            Err(err) => Err(err),
            Ok(()) => self.message.sanitize(),
        }
    }
}

/// A transaction that has passed the structural checks.
#[derive(Debug, PartialEq, Eq)]
pub struct SanitizedVersionedTransaction {
    signatures: Vec<Signature>,
    message: SanitizedVersionedMessage,
}

impl View for SanitizedVersionedTransaction {
    type V = TransactionView;

    closed spec fn view(&self) -> TransactionView {
        TransactionView { signatures: self.signatures@, message: self.message@ }
    }
}

impl SanitizedVersionedTransaction {
    #[verifier::type_invariant]
    spec fn valid(&self) -> bool {
        self@.is_sanitized()
    }

    /// Checks the transaction and wraps it; fails as the structural check
    /// does.
    pub fn try_new(tx: VersionedTransaction) -> (r: Result<Self, SanitizeError>)
        ensures
            match r {
                Ok(sanitized) => tx@.is_sanitized() && sanitized@ == tx@,
                Err(err) => tx@.sanitize_result() == Err::<(), SanitizeError>(err),
            },
    {
        match tx.sanitize_signatures() {
            Err(err) => Err(err),
            Ok(()) => match SanitizedVersionedMessage::try_new(tx.message) {
                Err(err) => Err(err),
                Ok(message) => Ok(SanitizedVersionedTransaction { signatures: tx.signatures, message }),
            },
        }
    }

    /// The message of the transaction.
    pub fn get_message(&self) -> (r: &SanitizedVersionedMessage)
        ensures
            r@ == self@.message,
            self@.is_sanitized(),
    {
        proof {
            use_type_invariant(self);
        }
        &self.message
    }

    /// The signatures of the transaction.
    pub fn signatures(&self) -> (r: &Vec<Signature>)
        ensures
            r@ == self@.signatures,
            self@.is_sanitized(),
    {
        proof {
            use_type_invariant(self);
        }
        &self.signatures
    }

    /// Takes the transaction apart.
    pub fn destruct(self) -> (r: (Vec<Signature>, SanitizedVersionedMessage))
        ensures
            r.0@ == self@.signatures,
            r.1@ == self@.message,
            self@.is_sanitized(),
    {
        proof {
            use_type_invariant(&self);
        }
        (self.signatures, self.message)
    }
}

} // verus!
