//! The capability that resolves the table lookups of a message to
//! addresses.

use vstd::prelude::*;
use crate::error::AddressLoaderError;
use crate::v0::{
    lookup_views, LoadedAddresses, LoadedAddressesView, LookupView, MessageAddressTableLookup,
};

verus! {

/// The view of what an address loader returned.
pub open spec fn loaded_view(r: Result<LoadedAddresses, AddressLoaderError>) -> Result<
    LoadedAddressesView,
    AddressLoaderError,
> {
    match r {
        Ok(addresses) => Ok(addresses@),
        Err(err) => Err(err),
    }
}

/// Resolves table lookups to addresses. What it returns is up to the
/// implementation: a loader may read any state it holds.
pub trait AddressLoader: Clone {
    /// Whether the loader may give the answer to the lookups. An
    /// implementation says here what it promises of its answers; unless
    /// it says otherwise, it promises nothing.
    open spec fn may_answer(
        &self,
        lookups: Seq<LookupView>,
        answer: Result<LoadedAddressesView, AddressLoaderError>,
    ) -> bool {
        true
    }

    /// The addresses that the lookups resolve to, or why there are none.
    fn load_addresses(self, lookups: &[MessageAddressTableLookup]) -> (r: Result<
        LoadedAddresses,
        AddressLoaderError,
    >)
        ensures
            self.may_answer(lookup_views(lookups@), loaded_view(r)),
    ;
}

/// A loader that either refuses every request or answers every request
/// with the addresses it was given.
#[derive(Debug)]
pub enum SimpleAddressLoader {
    Disabled,
    Enabled(LoadedAddresses),
}

impl SimpleAddressLoader {
    /// What the loader returns for any lookups.
    pub open spec fn answer(self) -> Result<LoadedAddressesView, AddressLoaderError> {
        match self {
            SimpleAddressLoader::Disabled => Err(AddressLoaderError::Disabled),
            SimpleAddressLoader::Enabled(addresses) => Ok(addresses@),
        }
    }
}

impl Clone for SimpleAddressLoader {
    fn clone(&self) -> (r: Self)
        ensures
            r.answer() == self.answer(),
    {
        match self {
            SimpleAddressLoader::Disabled => SimpleAddressLoader::Disabled,
            SimpleAddressLoader::Enabled(addresses) => SimpleAddressLoader::Enabled(addresses.clone()),
        }
    }
}

impl AddressLoader for SimpleAddressLoader {
    open spec fn may_answer(
        &self,
        lookups: Seq<LookupView>,
        answer: Result<LoadedAddressesView, AddressLoaderError>,
    ) -> bool {
        answer == self.answer()
    }

    fn load_addresses(self, lookups: &[MessageAddressTableLookup]) -> (r: Result<
        LoadedAddresses,
        AddressLoaderError,
    >) {
        match self {
            SimpleAddressLoader::Disabled => Err(AddressLoaderError::Disabled),
            SimpleAddressLoader::Enabled(addresses) => Ok(addresses),
        }
    }
}

} // verus!
