//! The legacy message format: a header, the account keys, a recent
//! blockhash and the compiled instructions.

use vstd::prelude::*;
use crate::error::SanitizeError;
use crate::keys::Pubkey;

verus! {

/// The largest length that the wire format can carry for a list.
pub const MAX_WIRE_LEN: usize = 0xffff;

/// Describes the organization of a message's account keys.
#[derive(Clone, Copy, Debug, PartialEq, Eq, Structural)]
pub struct MessageHeader {
    /// The number of signatures required; the signers are the first keys.
    pub num_required_signatures: u8,
    /// The last of the signed keys that are read-only.
    pub num_readonly_signed_accounts: u8,
    /// The last of the unsigned keys that are read-only.
    pub num_readonly_unsigned_accounts: u8,
}

impl Default for MessageHeader {
    fn default() -> (r: Self)
        ensures
            r == (MessageHeader {
                num_required_signatures: 0,
                num_readonly_signed_accounts: 0,
                num_readonly_unsigned_accounts: 0,
            }),
    {
        MessageHeader {
            num_required_signatures: 0,
            num_readonly_signed_accounts: 0,
            num_readonly_unsigned_accounts: 0,
        }
    }
}

/// A compact encoding of an instruction.
#[derive(Debug, PartialEq, Eq)]
pub struct CompiledInstruction {
    /// Index into the account keys of the program that executes this instruction.
    pub program_id_index: u8,
    /// Indices into the account keys of the accounts passed to the program.
    pub accounts: Vec<u8>,
    /// The program input data.
    pub data: Vec<u8>,
}

/// What a compiled instruction holds.
pub struct InstructionView {
    pub program_id_index: u8,
    pub accounts: Seq<u8>,
    pub data: Seq<u8>,
}

impl View for CompiledInstruction {
    type V = InstructionView;

    open spec fn view(&self) -> InstructionView {
        InstructionView {
            program_id_index: self.program_id_index,
            accounts: self.accounts@,
            data: self.data@,
        }
    }
}

impl InstructionView {
    /// The program is one of the first `num_program_keys` keys and not the
    /// fee payer, and every account is one of the first `num_keys` keys.
    pub open spec fn in_bounds(self, num_program_keys: int, num_keys: int) -> bool {
        &&& 0 < self.program_id_index < num_program_keys
        &&& forall|j: int| 0 <= j < self.accounts.len() ==> self.accounts[j] < num_keys
    }

    /// The lists of the instruction are short enough for the wire format.
    pub open spec fn fits_wire(self) -> bool {
        self.accounts.len() <= MAX_WIRE_LEN && self.data.len() <= MAX_WIRE_LEN
    }
}

/// The views of a list of instructions.
pub open spec fn instruction_views(s: Seq<CompiledInstruction>) -> Seq<InstructionView> {
    Seq::new(s.len(), |i: int| s[i]@)
}

impl Clone for CompiledInstruction {
    fn clone(&self) -> (r: Self)
        ensures
            r@ == self@,
    {
        CompiledInstruction {
            program_id_index: self.program_id_index,
            accounts: self.accounts.clone(),
            data: self.data.clone(),
        }
    }
}

impl CompiledInstruction {
    /// An instruction made of its parts.
    pub fn new_from_raw_parts(program_id_index: u8, data: Vec<u8>, accounts: Vec<u8>) -> (r: Self)
        ensures
            r@ == (InstructionView { program_id_index, accounts: accounts@, data: data@ }),
    {
        CompiledInstruction { program_id_index, accounts, data }
    }

    /// Whether the program and the accounts are within the given bounds.
    pub fn in_bounds(&self, num_program_keys: usize, num_keys: usize) -> (r: bool)
        ensures
            r == self@.in_bounds(num_program_keys as int, num_keys as int),
    {
        if self.program_id_index == 0 || self.program_id_index as usize >= num_program_keys {
            return false;
        }
        let mut j: usize = 0;
        while j < self.accounts.len()
            invariant
                j <= self.accounts.len(),
                forall|k: int| 0 <= k < j ==> self.accounts@[k] < num_keys,
            decreases self.accounts.len() - j,
        {
            if self.accounts[j] as usize >= num_keys {
                assert(!(self@.accounts[j as int] < num_keys));
                return false;
            }
            j += 1;
        }
        true
    }

    /// Whether the lists of the instruction are short enough for the wire format.
    pub fn fits_wire(&self) -> (r: bool)
        ensures
            r == self@.fits_wire(),
    {
        self.accounts.len() <= MAX_WIRE_LEN && self.data.len() <= MAX_WIRE_LEN
    }
}

/// Copies a list of instructions.
pub fn clone_instructions(src: &Vec<CompiledInstruction>) -> (r: Vec<CompiledInstruction>)
    ensures
        instruction_views(r@) == instruction_views(src@),
{
    let mut out: Vec<CompiledInstruction> = Vec::with_capacity(src.len());
    let mut i: usize = 0;
    while i < src.len()
        invariant
            i <= src.len(),
            out.len() == i,
            forall|k: int| 0 <= k < i ==> out@[k]@ == src@[k]@,
        decreases src.len() - i,
    {
        out.push(src[i].clone());
        i += 1;
    }
    assert(instruction_views(out@) =~= instruction_views(src@));
    out
}

/// Whether every instruction is within the given bounds.
pub fn instructions_in_bounds(
    instructions: &Vec<CompiledInstruction>,
    num_program_keys: usize,
    num_keys: usize,
) -> (r: bool)
    ensures
        r == all_in_bounds(instruction_views(instructions@), num_program_keys as int, num_keys as int),
{
    let mut i: usize = 0;
    while i < instructions.len()
        invariant
            i <= instructions.len(),
            forall|k: int| 0 <= k < i ==> (#[trigger] instruction_views(instructions@)[k]).in_bounds(
                num_program_keys as int,
                num_keys as int,
            ),
        decreases instructions.len() - i,
    {
        if !instructions[i].in_bounds(num_program_keys, num_keys) {
            assert(instruction_views(instructions@)[i as int] == instructions@[i as int]@);
            return false;
        }
        i += 1;
    }
    true
}

/// Whether every instruction of the list is within the given bounds.
pub open spec fn all_in_bounds(instructions: Seq<InstructionView>, num_program_keys: int, num_keys: int) -> bool {
    forall|i: int| 0 <= i < instructions.len() ==> (#[trigger] instructions[i]).in_bounds(num_program_keys, num_keys)
}

/// Whether every instruction of the list is short enough for the wire format.
pub open spec fn all_fit_wire(instructions: Seq<InstructionView>) -> bool {
    &&& instructions.len() <= MAX_WIRE_LEN
    &&& forall|i: int| 0 <= i < instructions.len() ==> (#[trigger] instructions[i]).fits_wire()
}

/// Whether every instruction is short enough for the wire format.
pub fn instructions_fit_wire(instructions: &Vec<CompiledInstruction>) -> (r: bool)
    ensures
        r == all_fit_wire(instruction_views(instructions@)),
{
    if instructions.len() > MAX_WIRE_LEN {
        return false;
    }
    let mut i: usize = 0;
    while i < instructions.len()
        invariant
            i <= instructions.len(),
            instructions.len() <= MAX_WIRE_LEN,
            forall|k: int| 0 <= k < i ==> (#[trigger] instruction_views(instructions@)[k]).fits_wire(),
        decreases instructions.len() - i,
    {
        if !instructions[i].fits_wire() {
            assert(instruction_views(instructions@)[i as int] == instructions@[i as int]@);
            return false;
        }
        i += 1;
    }
    true
}

/// A message in the legacy format.
#[derive(Debug, PartialEq, Eq)]
pub struct Message {
    /// How the account keys are organized.
    pub header: MessageHeader,
    /// All the account keys used by this message.
    pub account_keys: Vec<Pubkey>,
    /// The hash of a recent block.
    pub recent_blockhash: crate::keys::Hash,
    /// The instructions, executed in sequence.
    pub instructions: Vec<CompiledInstruction>,
}

/// What a message in the legacy format holds.
pub struct MessageView {
    pub header: MessageHeader,
    pub account_keys: Seq<Pubkey>,
    pub recent_blockhash: crate::keys::Hash,
    pub instructions: Seq<InstructionView>,
}

impl View for Message {
    type V = MessageView;

    open spec fn view(&self) -> MessageView {
        MessageView {
            header: self.header,
            account_keys: self.account_keys@,
            recent_blockhash: self.recent_blockhash,
            instructions: instruction_views(self.instructions@),
        }
    }
}

impl MessageView {
    /// The message is structurally valid: the signing area and the read-only
    /// unsigned area lie within the keys and do not overlap, at least one
    /// signer is writable, and every instruction refers to keys that exist,
    /// with a program that is not the fee payer.
    pub open spec fn is_sanitized(self) -> bool {
        &&& self.header.num_required_signatures + self.header.num_readonly_unsigned_accounts
            <= self.account_keys.len()
        &&& self.header.num_readonly_signed_accounts < self.header.num_required_signatures
        &&& all_in_bounds(self.instructions, self.account_keys.len() as int, self.account_keys.len() as int)
    }

    /// What sanitizing the message returns.
    pub open spec fn sanitize_result(self) -> Result<(), SanitizeError> {
        if self.is_sanitized() {
            Ok(())
        } else {
            Err(SanitizeError::IndexOutOfBounds)
        }
    }

    /// Every list of the message is short enough for the wire format.
    pub open spec fn fits_wire(self) -> bool {
        self.account_keys.len() <= MAX_WIRE_LEN && all_fit_wire(self.instructions)
    }
}

impl Clone for Message {
    fn clone(&self) -> (r: Self)
        ensures
            r@ == self@,
    {
        Message {
            header: self.header,
            account_keys: self.account_keys.clone(),
            recent_blockhash: self.recent_blockhash,
            instructions: clone_instructions(&self.instructions),
        }
    }
}

impl Default for Message {
    fn default() -> (r: Self)
        ensures
            r@.header == MessageHeader::default_spec(),
            r@.account_keys.len() == 0,
            r@.recent_blockhash@ == crate::keys::zero_bytes(32),
            r@.instructions.len() == 0,
    {
        Message {
            header: MessageHeader::default(),
            account_keys: Vec::new(),
            recent_blockhash: crate::keys::Hash::default(),
            instructions: Vec::new(),
        }
    }
}

impl MessageHeader {
    /// The header whose counts are all zero.
    pub open spec fn default_spec() -> MessageHeader {
        MessageHeader {
            num_required_signatures: 0,
            num_readonly_signed_accounts: 0,
            num_readonly_unsigned_accounts: 0,
        }
    }
}

impl Message {
    /// Checks that the message is structurally valid.
    pub fn sanitize(&self) -> (r: Result<(), SanitizeError>)
        ensures
            r == self@.sanitize_result(),
    {
        let num_keys = self.account_keys.len();
        if self.header.num_required_signatures as usize
            + self.header.num_readonly_unsigned_accounts as usize > num_keys {
            return Err(SanitizeError::IndexOutOfBounds);
        }
        if self.header.num_readonly_signed_accounts >= self.header.num_required_signatures {
            return Err(SanitizeError::IndexOutOfBounds);
        }
        if !instructions_in_bounds(&self.instructions, num_keys, num_keys) {
            return Err(SanitizeError::IndexOutOfBounds);
        }
        Ok(())
    }

    /// Whether every list of the message is short enough for the wire format.
    pub fn fits_wire(&self) -> (r: bool)
        ensures
            r == self@.fits_wire(),
    {
        self.account_keys.len() <= MAX_WIRE_LEN && instructions_fit_wire(&self.instructions)
    }
}

} // verus!
