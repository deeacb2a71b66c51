//! Errors of sanitization, address resolution and transaction checks.

use vstd::prelude::*;
use vstd::std_specs::convert::FromSpecImpl;

verus! {

/// Why a message or transaction is structurally invalid.
#[derive(Clone, Copy, Debug, PartialEq, Eq, Structural)]
pub enum SanitizeError {
    IndexOutOfBounds,
    ValueOutOfBounds,
    InvalidValue,
}

/// Why the addresses of a lookup table could not be resolved.
#[derive(Clone, Copy, Debug, PartialEq, Eq, Structural)]
pub enum AddressLoaderError {
    /// Address loading from lookup tables is disabled.
    Disabled,
    /// The slot hashes sysvar could not be loaded.
    SlotHashesSysvarNotFound,
    /// The lookup table does not exist.
    LookupTableAccountNotFound,
    /// The lookup table account is owned by the wrong program.
    InvalidAccountOwner,
    /// The lookup table account holds invalid data.
    InvalidAccountData,
    /// A lookup uses an index that the table does not have.
    InvalidLookupIndex,
}

/// Why a transaction is rejected.
#[derive(Clone, Copy, Debug, PartialEq, Eq, Structural)]
pub enum TransactionError {
    /// An account key occurs more than once.
    AccountLoadedTwice,
    /// An account needed for address resolution was not found.
    AccountNotFound,
    /// A signature does not verify.
    SignatureFailure,
    /// The transaction is structurally invalid.
    SanitizeFailure,
    /// The transaction version is not supported.
    UnsupportedVersion,
    /// The transaction locks more accounts than allowed.
    TooManyAccountLocks,
    /// An address table account does not exist.
    AddressLookupTableNotFound,
    /// An address table account has an invalid owner.
    InvalidAddressLookupTableOwner,
    /// An address table account has invalid data.
    InvalidAddressLookupTableData,
    /// An address table lookup uses an invalid index.
    InvalidAddressLookupTableIndex,
}

/// The transaction error that stands for a failed address resolution.
pub open spec fn address_loader_failure(err: AddressLoaderError) -> TransactionError {
    match err {
        AddressLoaderError::Disabled => TransactionError::UnsupportedVersion,
        AddressLoaderError::SlotHashesSysvarNotFound => TransactionError::AccountNotFound,
        AddressLoaderError::LookupTableAccountNotFound => TransactionError::AddressLookupTableNotFound,
        AddressLoaderError::InvalidAccountOwner => TransactionError::InvalidAddressLookupTableOwner,
        AddressLoaderError::InvalidAccountData => TransactionError::InvalidAddressLookupTableData,
        AddressLoaderError::InvalidLookupIndex => TransactionError::InvalidAddressLookupTableIndex,
    }
}

impl From<SanitizeError> for TransactionError {
    fn from(err: SanitizeError) -> (r: Self) {
        TransactionError::SanitizeFailure
    }
}

impl FromSpecImpl<SanitizeError> for TransactionError {
    open spec fn obeys_from_spec() -> bool {
        true
    }

    open spec fn from_spec(err: SanitizeError) -> Self {
        TransactionError::SanitizeFailure
    }
}

impl From<AddressLoaderError> for TransactionError {
    fn from(err: AddressLoaderError) -> (r: Self) {
        match err {
            AddressLoaderError::Disabled => TransactionError::UnsupportedVersion,
            AddressLoaderError::SlotHashesSysvarNotFound => TransactionError::AccountNotFound,
            AddressLoaderError::LookupTableAccountNotFound => TransactionError::AddressLookupTableNotFound,
            AddressLoaderError::InvalidAccountOwner => TransactionError::InvalidAddressLookupTableOwner,
            AddressLoaderError::InvalidAccountData => TransactionError::InvalidAddressLookupTableData,
            AddressLoaderError::InvalidLookupIndex => TransactionError::InvalidAddressLookupTableIndex,
        }
    }
}

impl FromSpecImpl<AddressLoaderError> for TransactionError {
    open spec fn obeys_from_spec() -> bool {
        true
    }

    open spec fn from_spec(err: AddressLoaderError) -> Self {
        address_loader_failure(err)
    }
}

} // verus!
