//! The addresses of the built-in programs that the rules refer to.

use vstd::prelude::*;
use crate::keys::Pubkey;

verus! {

/// The bytes of the vote program's address,
/// `Vote111111111111111111111111111111111111111`.
pub open spec fn vote_program_bytes() -> Seq<u8> {
    seq![
        7u8, 97, 72, 29, 53, 116, 116, 187, 124, 77, 118, 36, 235, 211, 189, 179,
        216, 53, 94, 115, 209, 16, 67, 252, 13, 163, 83, 128, 0, 0, 0, 0,
    ]
}

/// The bytes of the upgradeable loader's address,
/// `BPFLoaderUpgradeab1e11111111111111111111111`.
pub open spec fn upgradeable_loader_bytes() -> Seq<u8> {
    seq![
        2u8, 168, 246, 145, 78, 136, 161, 176, 226, 16, 21, 62, 247, 99, 174, 43,
        0, 194, 185, 61, 22, 193, 36, 210, 192, 83, 122, 16, 4, 128, 0, 0,
    ]
}

/// The bytes of the system program's address: 32 zeros.
pub open spec fn system_program_bytes() -> Seq<u8> {
    crate::keys::zero_bytes(32)
}

/// Whether the key is the vote program's address.
pub open spec fn is_vote_program(key: Pubkey) -> bool {
    key@ == vote_program_bytes()
}

/// Whether the key is the upgradeable loader's address.
pub open spec fn is_upgradeable_loader(key: Pubkey) -> bool {
    key@ == upgradeable_loader_bytes()
}

/// Whether the key is the system program's address.
pub open spec fn is_system_program(key: Pubkey) -> bool {
    key@ == system_program_bytes()
}

/// The vote program's address.
pub fn vote_program_id() -> (id: Pubkey)
    ensures
        is_vote_program(id),
{
    let id = Pubkey(
        [
            7, 97, 72, 29, 53, 116, 116, 187, 124, 77, 118, 36, 235, 211, 189, 179,
            216, 53, 94, 115, 209, 16, 67, 252, 13, 163, 83, 128, 0, 0, 0, 0,
        ],
    );
    assert(id@ =~= vote_program_bytes());
    id
}

/// The upgradeable loader's address.
pub fn upgradeable_loader_id() -> (id: Pubkey)
    ensures
        is_upgradeable_loader(id),
{
    let id = Pubkey(
        [
            2, 168, 246, 145, 78, 136, 161, 176, 226, 16, 21, 62, 247, 99, 174, 43,
            0, 194, 185, 61, 22, 193, 36, 210, 192, 83, 122, 16, 4, 128, 0, 0,
        ],
    );
    assert(id@ =~= upgradeable_loader_bytes());
    id
}

/// The system program's address.
pub fn system_program_id() -> (id: Pubkey)
    ensures
        is_system_program(id),
{
    Pubkey::default()
}

/// Whether the key is the vote program's address.
pub fn check_vote_program(key: &Pubkey) -> (r: bool)
    ensures
        r == is_vote_program(*key),
{
    let id = vote_program_id();
    proof {
        Pubkey::lemma_equal_by_bytes(*key, id);
    }
    *key == id
}

/// Whether the key is the upgradeable loader's address.
pub fn check_upgradeable_loader(key: &Pubkey) -> (r: bool)
    ensures
        r == is_upgradeable_loader(*key),
{
    let id = upgradeable_loader_id();
    proof {
        Pubkey::lemma_equal_by_bytes(*key, id);
    }
    *key == id
}

/// Whether the key is the system program's address.
pub fn check_system_program(key: &Pubkey) -> (r: bool)
    ensures
        r == is_system_program(*key),
{
    let id = system_program_id();
    proof {
        Pubkey::lemma_equal_by_bytes(*key, id);
    }
    *key == id
}

} // verus!
