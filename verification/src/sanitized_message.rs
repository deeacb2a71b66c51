//! A message whose account keys are resolved and whose writable accounts
//! are settled.

use std::collections::HashSet;
use vstd::prelude::*;
use crate::account_keys::{combined_keys, AccountKeys};
use crate::address_loader::{loaded_view, AddressLoader};
use crate::error::{address_loader_failure, AddressLoaderError, SanitizeError, TransactionError};
use crate::keys::Pubkey;
use crate::legacy::{instruction_views, CompiledInstruction, InstructionView, MessageHeader};
use crate::program_ids::{
    check_system_program, check_upgradeable_loader, is_system_program, is_upgradeable_loader,
};
use crate::v0::{LoadedAddresses, LoadedAddressesView, LookupView, MessageAddressTableLookup};
use crate::versioned::{SanitizedVersionedMessage, VersionedMessage, VersionedMessageView};

verus! {

/// Looks the key up with `std::collections::HashSet::contains`: the
/// result says whether the key is in the set that the reserved keys make
/// up.
#[verifier::external_body]
pub(crate) fn is_reserved(reserved: &HashSet<Pubkey>, key: &Pubkey) -> (r: bool)
    ensures
        r == reserved@.contains(*key),
{
    reserved.contains(key)
}

/// The difference of two counts, or zero where the second is larger.
pub open spec fn saturating_diff(a: int, b: int) -> int {
    if a >= b {
        a - b
    } else {
        0
    }
}

/// Whether some instruction of the list names the key at `index` as its
/// program.
pub open spec fn called_as_program(instructions: Seq<InstructionView>, index: int) -> bool {
    exists|k: int|
        0 <= k < instructions.len() && (#[trigger] instructions[k]).program_id_index == index
}

/// Whether the upgradeable loader is among the keys.
pub open spec fn has_upgradeable_loader(keys: Seq<Pubkey>) -> bool {
    exists|k: int| 0 <= k < keys.len() && is_upgradeable_loader(#[trigger] keys[k])
}

/// Whether the header makes the key at `index` writable. The message has
/// `num_static` keys of its own. `num_loaded_writable` is the number of
/// addresses loaded as writable, or `None` for the legacy format, which
/// loads none.
pub open spec fn writable_position(
    header: MessageHeader,
    num_static: int,
    num_loaded_writable: Option<int>,
    index: int,
) -> bool {
    let num_signed = header.num_required_signatures as int;
    match num_loaded_writable {
        None => {
            ||| index < saturating_diff(num_signed, header.num_readonly_signed_accounts as int)
            ||| (index >= num_signed && index < saturating_diff(
                num_static,
                header.num_readonly_unsigned_accounts as int,
            ))
        },
        Some(num_writable) => {
            if index >= num_static {
                index - num_static < num_writable
            } else if index >= num_signed {
                index - num_signed < saturating_diff(
                    saturating_diff(num_static, num_signed),
                    header.num_readonly_unsigned_accounts as int,
                )
            } else {
                index < saturating_diff(num_signed, header.num_readonly_signed_accounts as int)
            }
        },
    }
}

/// The addresses that count for a message: none for the legacy format.
pub open spec fn effective_loaded(
    message: VersionedMessageView,
    loaded: LoadedAddressesView,
) -> LoadedAddressesView {
    match message {
        VersionedMessageView::Legacy(_) => LoadedAddressesView::empty(),
        VersionedMessageView::V0(_) => loaded,
    }
}

/// The number of addresses loaded as writable, or `None` for the legacy
/// format.
pub open spec fn loaded_writable_count(
    message: VersionedMessageView,
    loaded: LoadedAddressesView,
) -> Option<int> {
    match message {
        VersionedMessageView::Legacy(_) => None,
        VersionedMessageView::V0(_) => Some(loaded.writable.len() as int),
    }
}

/// Whether the key at `index` of the full list `keys` is writable: its
/// position says so, it is not reserved, and it is not a program that the
/// message calls without the upgradeable loader among its keys.
pub open spec fn key_is_writable(
    header: MessageHeader,
    num_static: int,
    num_loaded_writable: Option<int>,
    keys: Seq<Pubkey>,
    instructions: Seq<InstructionView>,
    reserved: Set<Pubkey>,
    index: int,
) -> bool {
    &&& 0 <= index < keys.len()
    &&& writable_position(header, num_static, num_loaded_writable, index)
    &&& !reserved.contains(keys[index])
    &&& !(called_as_program(instructions, index) && !has_upgradeable_loader(keys))
}

/// Whether the key at `index` of the resolved message is writable.
pub open spec fn writable_flag(
    message: VersionedMessageView,
    loaded: LoadedAddressesView,
    reserved: Set<Pubkey>,
    index: int,
) -> bool {
    key_is_writable(
        message.header(),
        message.static_account_keys().len() as int,
        loaded_writable_count(message, loaded),
        combined_keys(message.static_account_keys(), effective_loaded(message, loaded)),
        message.instructions(),
        reserved,
        index,
    )
}

/// Whether instruction data starts with the tag of the instruction that
/// advances a nonce account.
pub open spec fn is_advance_nonce_data(data: Seq<u8>) -> bool {
    data.len() >= 4 && data.subrange(0, 4) == seq![4u8, 0u8, 0u8, 0u8]
}

/// What a sanitized message holds: the message, the addresses that its
/// lookups resolved to, and for each key whether it is writable.
pub struct SanitizedMessageView {
    pub message: VersionedMessageView,
    pub loaded_addresses: LoadedAddressesView,
    pub is_writable: Seq<bool>,
}

impl SanitizedMessageView {
    /// The full list of account keys: static, loaded writable, loaded
    /// read-only.
    pub open spec fn account_keys(self) -> Seq<Pubkey> {
        combined_keys(self.message.static_account_keys(), self.loaded_addresses)
    }

    /// The header of the message.
    pub open spec fn header(self) -> MessageHeader {
        self.message.header()
    }

    /// Whether the key at `index` is writable; no key beyond the list is.
    pub open spec fn writable(self, index: int) -> bool {
        0 <= index < self.is_writable.len() && self.is_writable[index]
    }

    /// The number of read-only accounts that the header and the loaded
    /// addresses count.
    pub open spec fn num_readonly_accounts(self) -> nat {
        (self.loaded_addresses.readonly.len() + self.header().num_readonly_signed_accounts
            + self.header().num_readonly_unsigned_accounts) as nat
    }

    /// Whether some key occurs twice in the full list.
    pub open spec fn has_duplicates(self) -> bool {
        !self.account_keys().no_duplicates()
    }

    /// The message is structurally valid, a message in the legacy
    /// format has no loaded addresses, and every key has its flag.
    pub open spec fn wf(self) -> bool {
        &&& self.message.is_sanitized()
        &&& self.message is Legacy ==> self.loaded_addresses == LoadedAddressesView::empty()
        &&& self.is_writable.len() == self.account_keys().len()
    }

    /// The account of the durable nonce that the message uses, if it uses
    /// one: its first instruction is for the system program, its data
    /// starts with the tag of the advance-nonce instruction, and its first
    /// account is writable.
    pub open spec fn durable_nonce(self) -> Option<Pubkey> {
        let keys = self.account_keys();
        let instructions = self.message.instructions();
        if instructions.len() > 0 && instructions[0].program_id_index < keys.len()
            && is_system_program(keys[instructions[0].program_id_index as int])
            && is_advance_nonce_data(instructions[0].data) && instructions[0].accounts.len() > 0
            && self.writable(
            instructions[0].accounts[0] as int,
        ) && instructions[0].accounts[0] < keys.len() {
            Some(keys[instructions[0].accounts[0] as int])
        } else {
            None
        }
    }
}

/// The sanitized message that a structurally valid message gives with the
/// given loaded addresses and reserved keys.
pub open spec fn resolved_view(
    message: VersionedMessageView,
    loaded: LoadedAddressesView,
    reserved: Set<Pubkey>,
) -> SanitizedMessageView {
    let loaded_addresses = effective_loaded(message, loaded);
    SanitizedMessageView {
        message,
        loaded_addresses,
        is_writable: Seq::new(
            combined_keys(message.static_account_keys(), loaded_addresses).len(),
            |i: int| writable_flag(message, loaded, reserved, i),
        ),
    }
}

/// What resolving a structurally valid message returns, given what the
/// address loader returned for its lookups. A message in the legacy
/// format has no lookups and always resolves.
pub open spec fn resolution_result(
    message: VersionedMessageView,
    loaded: Result<LoadedAddressesView, AddressLoaderError>,
    reserved: Set<Pubkey>,
) -> Result<SanitizedMessageView, TransactionError> {
    match message {
        VersionedMessageView::Legacy(_) => Ok(
            resolved_view(message, LoadedAddressesView::empty(), reserved),
        ),
        VersionedMessageView::V0(_) => match loaded {
            Ok(addresses) => Ok(resolved_view(message, addresses, reserved)),
            Err(err) => Err(address_loader_failure(err)),
        },
    }
}

/// Whether some instruction names the key at `key_index` as its program.
pub fn is_key_called_as_program(instructions: &Vec<CompiledInstruction>, key_index: usize) -> (r:
    bool)
    ensures
        r == called_as_program(instruction_views(instructions@), key_index as int),
{
    let ghost views = instruction_views(instructions@);
    let mut k: usize = 0;
    while k < instructions.len()
        invariant
            k <= instructions.len(),
            views == instruction_views(instructions@),
            forall|j: int| 0 <= j < k ==> (#[trigger] views[j]).program_id_index != key_index,
        decreases instructions.len() - k,
    {
        if instructions[k].program_id_index as usize == key_index {
            assert(views[k as int].program_id_index == key_index);
            return true;
        }
        k += 1;
    }
    false
}

/// The upgradeable loader is in a joined list exactly when it is in one
/// of the two parts.
pub proof fn lemma_loader_in_joined_keys(a: Seq<Pubkey>, b: Seq<Pubkey>)
    ensures
        has_upgradeable_loader(a + b) == (has_upgradeable_loader(a) || has_upgradeable_loader(b)),
{
    if has_upgradeable_loader(a) {
        let k = choose|k: int| 0 <= k < a.len() && is_upgradeable_loader(#[trigger] a[k]);
        assert((a + b)[k] == a[k]);
    }
    if has_upgradeable_loader(b) {
        let k = choose|k: int| 0 <= k < b.len() && is_upgradeable_loader(#[trigger] b[k]);
        assert((a + b)[a.len() + k] == b[k]);
    }
    if has_upgradeable_loader(a + b) {
        let k = choose|k: int| 0 <= k < (a + b).len() && is_upgradeable_loader(#[trigger] (a + b)[k]);
        if k < a.len() {
            assert(a[k] == (a + b)[k]);
        } else {
            assert(b[k - a.len()] == (a + b)[k]);
        }
    }
}

/// Whether the upgradeable loader is among the keys of the list.
fn list_has_upgradeable_loader(keys: &Vec<Pubkey>) -> (r: bool)
    ensures
        r == has_upgradeable_loader(keys@),
{
    let mut k: usize = 0;
    while k < keys.len()
        invariant
            k <= keys.len(),
            forall|j: int| 0 <= j < k ==> !is_upgradeable_loader(#[trigger] keys@[j]),
        decreases keys.len() - k,
    {
        if check_upgradeable_loader(&keys[k]) {
            return true;
        }
        k += 1;
    }
    false
}

/// Whether the upgradeable loader is among the static keys or the loaded
/// addresses.
pub fn is_upgradeable_loader_present(static_keys: &Vec<Pubkey>, loaded: Option<&LoadedAddresses>) -> (r:
    bool)
    ensures
        r == has_upgradeable_loader(
            match loaded {
                Some(addresses) => combined_keys(static_keys@, addresses@),
                None => static_keys@,
            },
        ),
{
    match loaded {
        None => list_has_upgradeable_loader(static_keys),
        Some(addresses) => {
            proof {
                lemma_loader_in_joined_keys(static_keys@, addresses@.writable);
                lemma_loader_in_joined_keys(static_keys@ + addresses@.writable, addresses@.readonly);
            }
            list_has_upgradeable_loader(static_keys) || list_has_upgradeable_loader(
                &addresses.writable,
            ) || list_has_upgradeable_loader(&addresses.readonly)
        },
    }
}

/// Whether the header makes the key at `index` writable.
fn is_writable_position(
    header: &MessageHeader,
    num_static: usize,
    num_loaded_writable: Option<usize>,
    index: usize,
) -> (r: bool)
    ensures
        r == writable_position(
            *header,
            num_static as int,
            match num_loaded_writable {
                Some(n) => Some(n as int),
                None => None,
            },
            index as int,
        ),
{
    let num_signed = header.num_required_signatures as usize;
    match num_loaded_writable {
        None => {
            index < num_signed.saturating_sub(header.num_readonly_signed_accounts as usize) || (
            index >= num_signed && index < num_static.saturating_sub(
                header.num_readonly_unsigned_accounts as usize,
            ))
        },
        Some(num_writable) => {
            if index >= num_static {
                index - num_static < num_writable
            } else if index >= num_signed {
                index - num_signed < num_static.saturating_sub(num_signed).saturating_sub(
                    header.num_readonly_unsigned_accounts as usize,
                )
            } else {
                index < num_signed.saturating_sub(header.num_readonly_signed_accounts as usize)
            }
        },
    }
}

/// For each key of the full list, whether it is writable. `loaded` is
/// `None` for a message in the legacy format.
fn compute_writable_flags(
    header: &MessageHeader,
    static_keys: &Vec<Pubkey>,
    instructions: &Vec<CompiledInstruction>,
    loaded: Option<&LoadedAddresses>,
    reserved: &HashSet<Pubkey>,
) -> (flags: Vec<bool>)
    ensures
        flags@.len() == AccountKeys::new_spec(static_keys, loaded).len(),
        forall|i: int|
            0 <= i < flags@.len() ==> flags@[i] == key_is_writable(
                *header,
                static_keys@.len() as int,
                match loaded {
                    Some(addresses) => Some(addresses@.writable.len() as int),
                    None => None,
                },
                AccountKeys::new_spec(static_keys, loaded),
                instruction_views(instructions@),
                reserved@,
                i,
            ),
{
    let keys = AccountKeys::new(static_keys, loaded);
    let num_loaded_writable = match loaded {
        Some(addresses) => Some(addresses.writable.len()),
        None => None,
    };
    let loader_present = is_upgradeable_loader_present(static_keys, loaded);
    let mut flags: Vec<bool> = Vec::new();
    loop
        invariant
            keys@ == AccountKeys::new_spec(static_keys, loaded),
            num_loaded_writable == match loaded {
                Some(addresses) => Some(addresses.writable.len()),
                None => None,
            },
            loader_present == has_upgradeable_loader(keys@),
            flags@.len() <= keys@.len(),
            forall|i: int|
                0 <= i < flags@.len() ==> flags@[i] == key_is_writable(
                    *header,
                    static_keys@.len() as int,
                    match loaded {
                        Some(addresses) => Some(addresses@.writable.len() as int),
                        None => None,
                    },
                    keys@,
                    instruction_views(instructions@),
                    reserved@,
                    i,
                ),
        ensures
            flags@.len() == keys@.len(),
        decreases keys@.len() - flags@.len(),
    {
        let index = flags.len();
        match keys.get(index) {
            None => {
                break ;
            },
            Some(key) => {
                let flag = is_writable_position(header, static_keys.len(), num_loaded_writable, index)
                    && !is_reserved(reserved, key) && !(is_key_called_as_program(
                    instructions,
                    index,
                ) && !loader_present);
                flags.push(flag);
            },
        }
    }
    flags
}

/// A message in the legacy format, with its writable flags.
#[derive(Debug, PartialEq, Eq)]
pub struct LegacyMessage {
    message: crate::legacy::Message,
    is_writable_account_cache: Vec<bool>,
}

/// A message with table lookups, with the addresses that the lookups
/// resolved to and its writable flags.
#[derive(Debug, PartialEq, Eq)]
pub struct LoadedMessage {
    message: crate::v0::Message,
    loaded_addresses: LoadedAddresses,
    is_writable_account_cache: Vec<bool>,
}

impl View for LegacyMessage {
    type V = SanitizedMessageView;

    closed spec fn view(&self) -> SanitizedMessageView {
        SanitizedMessageView {
            message: VersionedMessageView::Legacy(self.message@),
            loaded_addresses: LoadedAddressesView::empty(),
            is_writable: self.is_writable_account_cache@,
        }
    }
}

impl View for LoadedMessage {
    type V = SanitizedMessageView;

    closed spec fn view(&self) -> SanitizedMessageView {
        SanitizedMessageView {
            message: VersionedMessageView::V0(self.message@),
            loaded_addresses: self.loaded_addresses@,
            is_writable: self.is_writable_account_cache@,
        }
    }
}

impl LegacyMessage {
    #[verifier::type_invariant]
    spec fn valid(&self) -> bool {
        self@.wf()
    }

    /// Settles the writable accounts of a structurally valid message.
    fn new(message: crate::legacy::Message, reserved: &HashSet<Pubkey>) -> (r: Self)
        requires
            message@.is_sanitized(),
        ensures
            r@ == resolved_view(
                VersionedMessageView::Legacy(message@),
                LoadedAddressesView::empty(),
                reserved@,
            ),
    {
        let is_writable_account_cache = compute_writable_flags(
            &message.header,
            &message.account_keys,
            &message.instructions,
            None,
            reserved,
        );
        proof {
            let view = VersionedMessageView::Legacy(message@);
            assert(combined_keys(message@.account_keys, LoadedAddressesView::empty())
                =~= message@.account_keys);
            assert(is_writable_account_cache@ =~= resolved_view(
                view,
                LoadedAddressesView::empty(),
                reserved@,
            ).is_writable);
        }
        LegacyMessage { message, is_writable_account_cache }
    }
}

impl LoadedMessage {
    #[verifier::type_invariant]
    spec fn valid(&self) -> bool {
        self@.wf()
    }

    /// Settles the writable accounts of a structurally valid message whose
    /// lookups resolved to the given addresses.
    fn new(
        message: crate::v0::Message,
        loaded_addresses: LoadedAddresses,
        reserved: &HashSet<Pubkey>,
    ) -> (r: Self)
        requires
            message@.is_sanitized(),
        ensures
            r@ == resolved_view(VersionedMessageView::V0(message@), loaded_addresses@, reserved@),
    {
        let is_writable_account_cache = compute_writable_flags(
            &message.header,
            &message.account_keys,
            &message.instructions,
            Some(&loaded_addresses),
            reserved,
        );
        proof {
            assert(is_writable_account_cache@ =~= resolved_view(
                VersionedMessageView::V0(message@),
                loaded_addresses@,
                reserved@,
            ).is_writable);
        }
        LoadedMessage { message, loaded_addresses, is_writable_account_cache }
    }
}

/// Sanitized message of a transaction.
#[derive(Debug, PartialEq, Eq)]
pub enum SanitizedMessage {
    /// Sanitized message in the legacy format.
    Legacy(LegacyMessage),
    /// Sanitized message with the addresses that its lookups resolved to.
    V0(LoadedMessage),
}

impl View for SanitizedMessage {
    type V = SanitizedMessageView;

    open spec fn view(&self) -> SanitizedMessageView {
        match self {
            SanitizedMessage::Legacy(message) => message@,
            SanitizedMessage::V0(message) => message@,
        }
    }
}

/// The views of the two sides of a result of resolving a message.
pub open spec fn resolution_view(r: Result<SanitizedMessage, TransactionError>) -> Result<
    SanitizedMessageView,
    TransactionError,
> {
    match r {
        Ok(message) => Ok(message@),
        Err(err) => Err(err),
    }
}

impl SanitizedMessage {
    /// Resolves a structurally valid message, given what the address
    /// loader returned for its lookups. A message in the legacy format
    /// has no lookups: for it the loader's answer is not looked at.
    pub fn resolve(
        message: SanitizedVersionedMessage,
        loaded: Result<LoadedAddresses, AddressLoaderError>,
        reserved_account_keys: &HashSet<Pubkey>,
    ) -> (r: Result<Self, TransactionError>)
        ensures
            resolution_view(r) == resolution_result(
                message@,
                loaded_view(loaded),
                reserved_account_keys@,
            ),
            r matches Ok(resolved) ==> resolved@.wf(),
    {
        match message.into_message() {
            VersionedMessage::Legacy(legacy) => Ok(
                SanitizedMessage::Legacy(LegacyMessage::new(legacy, reserved_account_keys)),
            ),
            VersionedMessage::V0(v0) => match loaded {
                Ok(addresses) => Ok(
                    SanitizedMessage::V0(LoadedMessage::new(v0, addresses, reserved_account_keys)),
                ),
                Err(err) => Err(TransactionError::from(err)),
            },
        }
    }

    /// Resolves a structurally valid message. For a message with table
    /// lookups the loader is asked once, with the lookups of the message,
    /// and its failure is handed on. A message in the legacy format
    /// always resolves, and the loader is not asked.
    pub fn try_new<L: AddressLoader>(
        message: SanitizedVersionedMessage,
        address_loader: L,
        reserved_account_keys: &HashSet<Pubkey>,
    ) -> (r: Result<Self, TransactionError>)
        ensures
            exists|loaded: Result<LoadedAddressesView, AddressLoaderError>|
                {
                    &&& message@ is V0 ==> address_loader.may_answer(
                        message@.address_table_lookups(),
                        loaded,
                    )
                    &&& resolution_view(r) == #[trigger] resolution_result(
                        message@,
                        loaded,
                        reserved_account_keys@,
                    )
                },
            message@ is Legacy ==> resolution_view(r) == resolution_result(
                message@,
                Ok(LoadedAddressesView::empty()),
                reserved_account_keys@,
            ),
            r matches Ok(resolved) ==> resolved@.wf(),
    {
        let loaded = match message.message() {
            VersionedMessage::Legacy(_) => Ok(LoadedAddresses::default()),
            VersionedMessage::V0(v0) => address_loader.load_addresses(
                v0.address_table_lookups.as_slice(),
            ),
        };
        let ghost answer = loaded_view(loaded);
        let r = Self::resolve(message, loaded, reserved_account_keys);
        assert(resolution_view(r) == resolution_result(message@, answer, reserved_account_keys@));
        r
    }

    /// Checks a message in the legacy format and settles its writable
    /// accounts.
    pub fn try_from_legacy_message(
        message: crate::legacy::Message,
        reserved_account_keys: &HashSet<Pubkey>,
    ) -> (r: Result<Self, SanitizeError>)
        ensures
            match r {
                Ok(resolved) => message@.is_sanitized() && resolved@.wf() && resolved@
                    == resolved_view(
                    VersionedMessageView::Legacy(message@),
                    LoadedAddressesView::empty(),
                    reserved_account_keys@,
                ),
                Err(err) => message@.sanitize_result() == Err::<(), SanitizeError>(err),
            },
    {
        match message.sanitize() {
            Ok(()) => Ok(SanitizedMessage::Legacy(LegacyMessage::new(message, reserved_account_keys))),
            Err(err) => Err(err),
        }
    }

    /// States what holds of every sanitized message.
    pub fn well_formed(&self)
        ensures
            self@.wf(),
            self@.account_keys().len() <= usize::MAX,
    {
        match self {
            SanitizedMessage::Legacy(message) => {
                proof {
                    use_type_invariant(message);
                }
                let _ = message.is_writable_account_cache.len();
            },
            SanitizedMessage::V0(message) => {
                proof {
                    use_type_invariant(message);
                }
                let _ = message.is_writable_account_cache.len();
            },
        }
    }

    /// The header, which counts the signers and the read-only accounts.
    pub fn header(&self) -> (r: &MessageHeader)
        ensures
            *r == self@.header(),
    {
        match self {
            SanitizedMessage::Legacy(message) => &message.message.header,
            SanitizedMessage::V0(message) => &message.message.header,
        }
    }

    /// The account keys that the message carries itself.
    pub fn static_account_keys(&self) -> (r: &Vec<Pubkey>)
        ensures
            r@ == self@.message.static_account_keys(),
    {
        match self {
            SanitizedMessage::Legacy(message) => &message.message.account_keys,
            SanitizedMessage::V0(message) => &message.message.account_keys,
        }
    }

    /// The full list of account keys.
    pub fn account_keys(&self) -> (r: AccountKeys<'_>)
        ensures
            r@ == self@.account_keys(),
            r@.len() <= usize::MAX,
    {
        self.well_formed();
        match self {
            SanitizedMessage::Legacy(message) => {
                assert(combined_keys(message.message@.account_keys, LoadedAddressesView::empty())
                    =~= message.message@.account_keys);
                AccountKeys::new(&message.message.account_keys, None)
            },
            SanitizedMessage::V0(message) => AccountKeys::new(
                &message.message.account_keys,
                Some(&message.loaded_addresses),
            ),
        }
    }

    /// The instructions of the message.
    pub fn instructions(&self) -> (r: &Vec<CompiledInstruction>)
        ensures
            instruction_views(r@) == self@.message.instructions(),
    {
        match self {
            SanitizedMessage::Legacy(message) => &message.message.instructions,
            SanitizedMessage::V0(message) => &message.message.instructions,
        }
    }

    /// The addresses that the lookups resolved to, if the message has
    /// lookups.
    pub fn loaded_lookup_table_addresses(&self) -> (r: Option<&LoadedAddresses>)
        ensures
            match r {
                Some(addresses) => self@.message is V0 && addresses@ == self@.loaded_addresses,
                None => self@.message is Legacy,
            },
    {
        match self {
            SanitizedMessage::Legacy(_) => None,
            SanitizedMessage::V0(message) => Some(&message.loaded_addresses),
        }
    }

    /// Whether the account at the given index is writable.
    pub fn is_writable(&self, index: usize) -> (r: bool)
        ensures
            r == self@.writable(index as int),
    {
        let cache = match self {
            SanitizedMessage::Legacy(message) => &message.is_writable_account_cache,
            SanitizedMessage::V0(message) => &message.is_writable_account_cache,
        };
        index < cache.len() && cache[index]
    }

    /// Whether the account at the given index signed the message.
    pub fn is_signer(&self, index: usize) -> (r: bool)
        ensures
            r == (index < self@.header().num_required_signatures),
    {
        index < self.header().num_required_signatures as usize
    }

    /// The number of read-only accounts that the header and the loaded
    /// addresses count, or the largest `usize` if there are more.
    pub fn num_readonly_accounts(&self) -> (r: usize)
        ensures
            r == if self@.num_readonly_accounts() <= usize::MAX {
                self@.num_readonly_accounts()
            } else {
                usize::MAX as nat
            },
    {
        self.well_formed();
        let loaded_readonly = match self.loaded_lookup_table_addresses() {
            Some(addresses) => addresses.readonly.len(),
            None => 0,
        };
        loaded_readonly.saturating_add(
            self.header().num_readonly_signed_accounts as usize,
        ).saturating_add(self.header().num_readonly_unsigned_accounts as usize)
    }

    /// Whether some account key occurs twice in the full list.
    pub fn has_duplicates(&self) -> (r: bool)
        ensures
            r == self@.has_duplicates(),
    {
        let keys = self.account_keys();
        let n = keys.len();
        let mut i: usize = 0;
        while i < n
            invariant
                n == keys@.len(),
                keys@ == self@.account_keys(),
                i <= n,
                forall|a: int, b: int| 0 <= a < i && a < b < n ==> keys@[a] != keys@[b],
            decreases n - i,
        {
            let mut j: usize = i + 1;
            while j < n
                invariant
                    n == keys@.len(),
                    keys@ == self@.account_keys(),
                    i < j <= n,
                    forall|b: int| i < b < j ==> keys@[i as int] != keys@[b],
                decreases n - j,
            {
                match (keys.get(i), keys.get(j)) {
                    (Some(first), Some(second)) => {
                        if *first == *second {
                            assert(keys@[i as int] == keys@[j as int]);
                            assert(!keys@.no_duplicates());
                            return true;
                        }
                    },
                    _ => {},
                }
                j += 1;
            }
            i += 1;
        }
        assert forall|a: int, b: int|
            0 <= a < keys@.len() && 0 <= b < keys@.len() && a != b implies keys@[a] != keys@[b] by {
            if a < b {
                assert(keys@[a] != keys@[b]);
            } else {
                assert(keys@[b] != keys@[a]);
            }
        }
        false
    }
}

/// Whether instruction data starts with the tag of the instruction that
/// advances a nonce account.
pub fn is_advance_nonce_instruction_data(data: &Vec<u8>) -> (r: bool)
    ensures
        r == is_advance_nonce_data(data@),
{
    if data.len() < 4 {
        return false;
    }
    let r = data[0] == 4 && data[1] == 0 && data[2] == 0 && data[3] == 0;
    proof {
        let head = data@.subrange(0, 4);
        assert(head[0] == data@[0] && head[1] == data@[1] && head[2] == data@[2] && head[3]
            == data@[3]);
        if r {
            assert(head =~= seq![4u8, 0u8, 0u8, 0u8]);
        }
    }
    r
}

impl SanitizedMessage {
    /// If the message uses a durable nonce, the key of the nonce account.
    pub fn get_durable_nonce(&self) -> (r: Option<&Pubkey>)
        ensures
            match r {
                Some(key) => self@.durable_nonce() == Some(*key),
                None => self@.durable_nonce() is None,
            },
    {
        let instructions = self.instructions();
        if instructions.len() == 0 {
            return None;
        }
        let instruction = &instructions[0];
        assert(self@.message.instructions()[0] == instruction@);
        let keys = self.account_keys();
        match keys.get(instruction.program_id_index as usize) {
            None => {
                return None;
            },
            Some(program_id) => {
                if !check_system_program(program_id) {
                    return None;
                }
            },
        }
        if !is_advance_nonce_instruction_data(&instruction.data) {
            return None;
        }
        if instruction.accounts.len() == 0 {
            return None;
        }
        let index = instruction.accounts[0] as usize;
        if !self.is_writable(index) {
            return None;
        }
        keys.get(index)
    }

    /// The table lookups of the message; none for the legacy format.
    pub fn message_address_table_lookups(&self) -> (r: &[MessageAddressTableLookup])
        ensures
            crate::v0::lookup_views(r@) == match self@.message {
                VersionedMessageView::Legacy(_) => Seq::<LookupView>::empty(),
                VersionedMessageView::V0(message) => message.address_table_lookups,
            },
    {
        match self {
            SanitizedMessage::Legacy(_) => {
                let r: &[MessageAddressTableLookup] = &[];
                assert(crate::v0::lookup_views(r@) =~= Seq::<LookupView>::empty());
                r
            },
            SanitizedMessage::V0(message) => message.message.address_table_lookups.as_slice(),
        }
    }

    /// Whether every list of the message is short enough for the wire format.
    pub fn fits_wire(&self) -> (r: bool)
        ensures
            r == self@.message.fits_wire(),
    {
        match self {
            SanitizedMessage::Legacy(message) => message.message.fits_wire(),
            SanitizedMessage::V0(message) => message.message.fits_wire(),
        }
    }

    /// The bytes that encode the message as it came: what is signed.
    pub fn serialize(&self) -> (bytes: Vec<u8>)
        requires
            self@.message.fits_wire(),
        ensures
            bytes@ == self@.message.wire_bytes(),
    {
        match self {
            SanitizedMessage::Legacy(message) => crate::wire::serialize_legacy(&message.message),
            SanitizedMessage::V0(message) => crate::wire::serialize_v0(&message.message),
        }
    }

    /// A copy of the message as it came, without what was resolved.
    pub fn to_versioned_message(&self) -> (r: VersionedMessage)
        ensures
            r@ == self@.message,
    {
        match self {
            SanitizedMessage::Legacy(message) => VersionedMessage::Legacy(message.message.clone()),
            SanitizedMessage::V0(message) => VersionedMessage::V0(message.message.clone()),
        }
    }
}

impl Clone for SanitizedMessage {
    fn clone(&self) -> (r: Self)
        ensures
            r@ == self@,
    {
        match self {
            SanitizedMessage::Legacy(message) => {
                proof {
                    use_type_invariant(message);
                }
                SanitizedMessage::Legacy(
                    LegacyMessage {
                        message: message.message.clone(),
                        is_writable_account_cache: message.is_writable_account_cache.clone(),
                    },
                )
            },
            SanitizedMessage::V0(message) => {
                proof {
                    use_type_invariant(message);
                }
                SanitizedMessage::V0(
                    LoadedMessage {
                        message: message.message.clone(),
                        loaded_addresses: message.loaded_addresses.clone(),
                        is_writable_account_cache: message.is_writable_account_cache.clone(),
                    },
                )
            },
        }
    }
}

} // verus!
