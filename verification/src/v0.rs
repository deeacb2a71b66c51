//! The message format that refers to accounts through address lookup
//! tables, and the addresses that such lookups resolve to.

use vstd::prelude::*;
use crate::error::SanitizeError;
use crate::keys::Pubkey;
use crate::legacy::{
    all_fit_wire, all_in_bounds, clone_instructions, instruction_views, instructions_fit_wire,
    instructions_in_bounds, CompiledInstruction, InstructionView, MessageHeader, MAX_WIRE_LEN,
};

verus! {

/// The most account keys, static and looked up together, that a message
/// can refer to: account indices are single bytes.
pub const MAX_ACCOUNT_KEYS: usize = 256;

/// A reference to entries of an on-chain address lookup table.
#[derive(Debug, PartialEq, Eq)]
pub struct MessageAddressTableLookup {
    /// The address of the lookup table account.
    pub account_key: Pubkey,
    /// The table entries to load as writable.
    pub writable_indexes: Vec<u8>,
    /// The table entries to load as read-only.
    pub readonly_indexes: Vec<u8>,
}

/// What a table lookup holds.
pub struct LookupView {
    pub account_key: Pubkey,
    pub writable_indexes: Seq<u8>,
    pub readonly_indexes: Seq<u8>,
}

impl View for MessageAddressTableLookup {
    type V = LookupView;

    open spec fn view(&self) -> LookupView {
        LookupView {
            account_key: self.account_key,
            writable_indexes: self.writable_indexes@,
            readonly_indexes: self.readonly_indexes@,
        }
    }
}

impl LookupView {
    /// The number of addresses that the lookup asks for.
    pub open spec fn num_indexes(self) -> nat {
        self.writable_indexes.len() + self.readonly_indexes.len()
    }

    /// The lists of the lookup are short enough for the wire format.
    pub open spec fn fits_wire(self) -> bool {
        self.writable_indexes.len() <= MAX_WIRE_LEN && self.readonly_indexes.len() <= MAX_WIRE_LEN
    }
}

impl Clone for MessageAddressTableLookup {
    fn clone(&self) -> (r: Self)
        ensures
            r@ == self@,
    {
        MessageAddressTableLookup {
            account_key: self.account_key,
            writable_indexes: self.writable_indexes.clone(),
            readonly_indexes: self.readonly_indexes.clone(),
        }
    }
}

/// The views of a list of table lookups.
pub open spec fn lookup_views(s: Seq<MessageAddressTableLookup>) -> Seq<LookupView> {
    Seq::new(s.len(), |i: int| s[i]@)
}

/// The number of addresses that the lookups ask for, all together.
pub open spec fn num_lookup_keys(lookups: Seq<LookupView>) -> nat
    decreases lookups.len(),
{
    if lookups.len() == 0 {
        0
    } else {
        num_lookup_keys(lookups.drop_last()) + lookups.last().num_indexes()
    }
}

/// Whether some lookup of the list asks for no address at all.
pub open spec fn has_empty_lookup(lookups: Seq<LookupView>) -> bool {
    exists|i: int| 0 <= i < lookups.len() && (#[trigger] lookups[i]).num_indexes() == 0
}

/// Whether every lookup of the list is short enough for the wire format.
pub open spec fn all_lookups_fit_wire(lookups: Seq<LookupView>) -> bool {
    &&& lookups.len() <= MAX_WIRE_LEN
    &&& forall|i: int| 0 <= i < lookups.len() ==> (#[trigger] lookups[i]).fits_wire()
}

/// Copies a list of table lookups.
pub fn clone_lookups(src: &Vec<MessageAddressTableLookup>) -> (r: Vec<MessageAddressTableLookup>)
    ensures
        lookup_views(r@) == lookup_views(src@),
{
    let mut out: Vec<MessageAddressTableLookup> = Vec::with_capacity(src.len());
    let mut i: usize = 0;
    while i < src.len()
        invariant
            i <= src.len(),
            out.len() == i,
            forall|k: int| 0 <= k < i ==> out@[k]@ == src@[k]@,
        decreases src.len() - i,
    {
        out.push(src[i].clone());
        i += 1;
    }
    assert(lookup_views(out@) =~= lookup_views(src@));
    out
}

/// A message that refers to some of its accounts through lookup tables.
#[derive(Debug, PartialEq, Eq)]
pub struct Message {
    /// How the static account keys are organized.
    pub header: MessageHeader,
    /// The account keys that the message carries itself.
    pub account_keys: Vec<Pubkey>,
    /// The hash of a recent block.
    pub recent_blockhash: crate::keys::Hash,
    /// The instructions, executed in sequence.
    pub instructions: Vec<CompiledInstruction>,
    /// The lookups that load further account keys.
    pub address_table_lookups: Vec<MessageAddressTableLookup>,
}

/// What a message with table lookups holds.
pub struct MessageView {
    pub header: MessageHeader,
    pub account_keys: Seq<Pubkey>,
    pub recent_blockhash: crate::keys::Hash,
    pub instructions: Seq<InstructionView>,
    pub address_table_lookups: Seq<LookupView>,
}

impl View for Message {
    type V = MessageView;

    open spec fn view(&self) -> MessageView {
        MessageView {
            header: self.header,
            account_keys: self.account_keys@,
            recent_blockhash: self.recent_blockhash,
            instructions: instruction_views(self.instructions@),
            address_table_lookups: lookup_views(self.address_table_lookups@),
        }
    }
}

impl MessageView {
    /// The number of account keys, static and looked up together.
    pub open spec fn num_account_keys(self) -> nat {
        self.account_keys.len() + num_lookup_keys(self.address_table_lookups)
    }

    /// What sanitizing the message returns. The checks, in order: the
    /// signing area and the read-only unsigned area lie within the static
    /// keys; at least one signer is writable; every lookup asks for an
    /// address; there are at most 256 keys in all; every instruction has a
    /// static program that is not the fee payer, and accounts that exist.
    pub open spec fn sanitize_result(self) -> Result<(), SanitizeError> {
        if self.header.num_required_signatures + self.header.num_readonly_unsigned_accounts
            > self.account_keys.len() {
            Err(SanitizeError::IndexOutOfBounds)
        } else if self.header.num_readonly_signed_accounts >= self.header.num_required_signatures {
            Err(SanitizeError::InvalidValue)
        } else if has_empty_lookup(self.address_table_lookups) {
            Err(SanitizeError::InvalidValue)
        } else if self.num_account_keys() > MAX_ACCOUNT_KEYS {
            Err(SanitizeError::IndexOutOfBounds)
        } else if !all_in_bounds(
            self.instructions,
            self.account_keys.len() as int,
            self.num_account_keys() as int,
        ) {
            Err(SanitizeError::IndexOutOfBounds)
        } else {
            Ok(())
        }
    }

    /// The message is structurally valid.
    pub open spec fn is_sanitized(self) -> bool {
        self.sanitize_result() is Ok
    }

    /// Every list of the message is short enough for the wire format.
    pub open spec fn fits_wire(self) -> bool {
        &&& self.account_keys.len() <= MAX_WIRE_LEN
        &&& all_fit_wire(self.instructions)
        &&& all_lookups_fit_wire(self.address_table_lookups)
    }
}

impl Clone for Message {
    fn clone(&self) -> (r: Self)
        ensures
            r@ == self@,
    {
        Message {
            header: self.header,
            account_keys: self.account_keys.clone(),
            recent_blockhash: self.recent_blockhash,
            instructions: clone_instructions(&self.instructions),
            address_table_lookups: clone_lookups(&self.address_table_lookups),
        }
    }
}

/// Adding a lookup to a list adds what it asks for to the total.
pub proof fn lemma_num_lookup_keys_push(lookups: Seq<LookupView>, n: int)
    requires
        0 <= n < lookups.len(),
    ensures
        num_lookup_keys(lookups.take(n + 1)) == num_lookup_keys(lookups.take(n))
            + lookups[n].num_indexes(),
{
    assert(lookups.take(n + 1).drop_last() =~= lookups.take(n));
}

impl Message {
    /// The number of addresses that the lookups ask for, or `None` when
    /// some lookup asks for none. The number is exact up to the largest
    /// `usize` and stays there beyond it.
    fn count_lookup_keys(&self) -> (r: Option<usize>)
        ensures
            r is None <==> has_empty_lookup(self@.address_table_lookups),
            r matches Some(n) ==> (if num_lookup_keys(self@.address_table_lookups) <= usize::MAX {
                n == num_lookup_keys(self@.address_table_lookups)
            } else {
                n == usize::MAX
            }),
    {
        let ghost lookups = self@.address_table_lookups;
        let mut total: usize = 0;
        let mut i: usize = 0;
        while i < self.address_table_lookups.len()
            invariant
                i <= self.address_table_lookups.len(),
                lookups == self@.address_table_lookups,
                lookups.len() == self.address_table_lookups.len(),
                forall|k: int| 0 <= k < i ==> (#[trigger] lookups[k]).num_indexes() != 0,
                if num_lookup_keys(lookups.take(i as int)) <= usize::MAX {
                    total == num_lookup_keys(lookups.take(i as int))
                } else {
                    total == usize::MAX
                },
            decreases self.address_table_lookups.len() - i,
        {
            let lookup = &self.address_table_lookups[i];
            let num_indexes = lookup.writable_indexes.len().saturating_add(
                lookup.readonly_indexes.len(),
            );
            proof {
                assert(lookups[i as int] == lookup@);
                lemma_num_lookup_keys_push(lookups, i as int);
            }
            if num_indexes == 0 {
                return None;
            }
            total = total.saturating_add(num_indexes);
            i += 1;
        }
        assert(lookups.take(i as int) =~= lookups);
        Some(total)
    }

    /// Checks that the message is structurally valid.
    pub fn sanitize(&self) -> (r: Result<(), SanitizeError>)
        ensures
            r == self@.sanitize_result(),
    {
        let num_static_keys = self.account_keys.len();
        if self.header.num_required_signatures as usize
            + self.header.num_readonly_unsigned_accounts as usize > num_static_keys {
            return Err(SanitizeError::IndexOutOfBounds);
        }
        if self.header.num_readonly_signed_accounts >= self.header.num_required_signatures {
            return Err(SanitizeError::InvalidValue);
        }
        let num_dynamic_keys = match self.count_lookup_keys() {
            None => {
                return Err(SanitizeError::InvalidValue);
            },
            Some(n) => n,
        };
        let total = num_static_keys.saturating_add(num_dynamic_keys);
        if total > MAX_ACCOUNT_KEYS {
            return Err(SanitizeError::IndexOutOfBounds);
        }
        if !instructions_in_bounds(&self.instructions, num_static_keys, total) {
            return Err(SanitizeError::IndexOutOfBounds);
        }
        Ok(())
    }

    /// Whether every list of the message is short enough for the wire format.
    pub fn fits_wire(&self) -> (r: bool)
        ensures
            r == self@.fits_wire(),
    {
        if self.account_keys.len() > MAX_WIRE_LEN || !instructions_fit_wire(&self.instructions) {
            return false;
        }
        if self.address_table_lookups.len() > MAX_WIRE_LEN {
            return false;
        }
        let mut i: usize = 0;
        while i < self.address_table_lookups.len()
            invariant
                i <= self.address_table_lookups.len(),
                forall|k: int| 0 <= k < i ==> (#[trigger] lookup_views(self.address_table_lookups@)[k]).fits_wire(),
            decreases self.address_table_lookups.len() - i,
        {
            let lookup = &self.address_table_lookups[i];
            if lookup.writable_indexes.len() > MAX_WIRE_LEN || lookup.readonly_indexes.len() > MAX_WIRE_LEN {
                assert(lookup_views(self.address_table_lookups@)[i as int] == lookup@);
                return false;
            }
            i += 1;
        }
        true
    }
}

/// The addresses that the lookups of a message resolve to.
#[derive(Debug, PartialEq, Eq)]
pub struct LoadedAddresses {
    /// The addresses loaded as writable.
    pub writable: Vec<Pubkey>,
    /// The addresses loaded as read-only.
    pub readonly: Vec<Pubkey>,
}

/// What a set of loaded addresses holds.
pub struct LoadedAddressesView {
    pub writable: Seq<Pubkey>,
    pub readonly: Seq<Pubkey>,
}

impl View for LoadedAddresses {
    type V = LoadedAddressesView;

    open spec fn view(&self) -> LoadedAddressesView {
        LoadedAddressesView { writable: self.writable@, readonly: self.readonly@ }
    }
}

impl LoadedAddressesView {
    /// No address at all.
    pub open spec fn empty() -> LoadedAddressesView {
        LoadedAddressesView { writable: Seq::empty(), readonly: Seq::empty() }
    }

    /// The addresses in the order in which a message counts them: the
    /// writable ones, then the read-only ones.
    pub open spec fn keys(self) -> Seq<Pubkey> {
        self.writable + self.readonly
    }
}

impl Clone for LoadedAddresses {
    fn clone(&self) -> (r: Self)
        ensures
            r@ == self@,
    {
        LoadedAddresses { writable: self.writable.clone(), readonly: self.readonly.clone() }
    }
}

impl Default for LoadedAddresses {
    fn default() -> (r: Self)
        ensures
            r@ == LoadedAddressesView::empty(),
    {
        LoadedAddresses { writable: Vec::new(), readonly: Vec::new() }
    }
}

impl LoadedAddresses {
    /// Whether there is no address.
    pub fn is_empty(&self) -> (r: bool)
        ensures
            r == (self@.keys().len() == 0),
    {
        self.writable.len() == 0 && self.readonly.len() == 0
    }
}

} // verus!
