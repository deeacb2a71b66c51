//! The full list of account keys of a message: the static keys, then the
//! addresses loaded as writable, then those loaded as read-only.

use vstd::prelude::*;
use crate::keys::Pubkey;
use crate::v0::{LoadedAddresses, LoadedAddressesView};

verus! {

/// The combined key list: static keys, loaded writable, loaded read-only.
pub open spec fn combined_keys(static_keys: Seq<Pubkey>, loaded: LoadedAddressesView) -> Seq<Pubkey> {
    static_keys + loaded.writable + loaded.readonly
}

/// A borrowed view of the account keys of a message.
#[derive(Debug)]
pub struct AccountKeys<'a> {
    static_keys: &'a Vec<Pubkey>,
    dynamic_keys: Option<&'a LoadedAddresses>,
}

impl<'a> View for AccountKeys<'a> {
    type V = Seq<Pubkey>;

    closed spec fn view(&self) -> Seq<Pubkey> {
        Self::new_spec(self.static_keys, self.dynamic_keys)
    }
}

impl<'a> AccountKeys<'a> {
    /// The keys that a view of the given parts shows: the static keys,
    /// followed by the loaded ones, if any.
    pub open spec fn new_spec(
        static_keys: &Vec<Pubkey>,
        dynamic_keys: Option<&LoadedAddresses>,
    ) -> Seq<Pubkey> {
        match dynamic_keys {
            Some(loaded) => combined_keys(static_keys@, loaded@),
            None => static_keys@,
        }
    }

    /// The view of the static keys followed by the loaded ones, if any.
    pub fn new(static_keys: &'a Vec<Pubkey>, dynamic_keys: Option<&'a LoadedAddresses>) -> (r: Self)
        ensures
            r@ == Self::new_spec(static_keys, dynamic_keys),
    {
        AccountKeys { static_keys, dynamic_keys }
    }

    /// The key at the given place of the combined list, if there is one.
    pub fn get(&self, index: usize) -> (r: Option<&'a Pubkey>)
        ensures
            match r {
                Some(key) => index < self@.len() && *key == self@[index as int],
                None => index >= self@.len(),
            },
    {
        let num_static = self.static_keys.len();
        if index < num_static {
            return Some(&self.static_keys[index]);
        }
        match self.dynamic_keys {
            None => None,
            Some(loaded) => {
                let index = index - num_static;
                let num_writable = loaded.writable.len();
                if index < num_writable {
                    return Some(&loaded.writable[index]);
                }
                let index = index - num_writable;
                if index < loaded.readonly.len() {
                    return Some(&loaded.readonly[index]);
                }
                None
            },
        }
    }

    /// The number of keys, or the largest `usize` if there are more.
    pub fn len(&self) -> (r: usize)
        ensures
            r == if self@.len() <= usize::MAX {
                self@.len()
            } else {
                usize::MAX as nat
            },
    {
        match self.dynamic_keys {
            None => self.static_keys.len(),
            Some(loaded) => self.static_keys.len().saturating_add(loaded.writable.len()).saturating_add(
                loaded.readonly.len(),
            ),
        }
    }

    /// Whether there is no key.
    pub fn is_empty(&self) -> (r: bool)
        ensures
            r == (self@.len() == 0),
    {
        self.len() == 0
    }
}

} // verus!
