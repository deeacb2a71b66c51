//! Fixed-width byte values: account addresses, hashes and signatures.

use vstd::prelude::*;
use vstd::std_specs::cmp::PartialEqSpecImpl;

verus! {

/// A byte string of `n` zeros.
pub open spec fn zero_bytes(n: nat) -> Seq<u8> {
    Seq::new(n, |i: int| 0u8)
}

/// Compares two byte strings.
pub fn bytes_equal(a: &[u8], b: &[u8]) -> (r: bool)
    ensures
        r == (a@ == b@),
{
    if a.len() != b.len() {
        return false;
    }
    let mut i: usize = 0;
    while i < a.len()
        invariant
            i <= a.len(),
            a.len() == b.len(),
            forall|j: int| 0 <= j < i ==> a@[j] == b@[j],
        decreases a.len() - i,
    {
        if a[i] != b[i] {
            return false;
        }
        i += 1;
    }
    assert(a@ =~= b@);
    true
}

/// The address of an account: 32 bytes.
#[derive(Clone, Copy, Debug, Hash)]
pub struct Pubkey(pub [u8; 32]);

impl View for Pubkey {
    type V = Seq<u8>;

    open spec fn view(&self) -> Seq<u8> {
        self.0@
    }
}

impl PartialEq for Pubkey {
    fn eq(&self, other: &Self) -> (r: bool) {
        proof {
            Pubkey::lemma_equal_by_bytes(*self, *other);
        }
        bytes_equal(self.0.as_slice(), other.0.as_slice())
    }
}

impl Eq for Pubkey {

}

impl PartialEqSpecImpl for Pubkey {
    open spec fn obeys_eq_spec() -> bool {
        true
    }

    open spec fn eq_spec(&self, other: &Self) -> bool {
        *self == *other
    }
}

impl Default for Pubkey {
    /// The value whose bytes are all zero.
    fn default() -> (r: Self)
        ensures
            r@ == zero_bytes(32),
    {
        let r = Pubkey([0u8; 32]);
        assert(r@ =~= zero_bytes(32));
        r
    }
}

impl Pubkey {
    /// The value made of the given bytes.
    pub fn new_from_array(bytes: [u8; 32]) -> (r: Self)
        ensures
            r.0 == bytes,
    {
        Pubkey(bytes)
    }

    /// The bytes of this value.
    pub fn to_bytes(&self) -> (bytes: [u8; 32])
        ensures
            bytes == self.0,
    {
        self.0
    }

    /// Two values are equal exactly when their bytes are.
    pub proof fn lemma_equal_by_bytes(a: Pubkey, b: Pubkey)
        ensures
            (a == b) <==> (a@ == b@),
    {
        if a@ == b@ {
            assert(a.0 =~= b.0);
        }
    }
}

/// A 32-byte hash.
#[derive(Clone, Copy, Debug, Hash)]
pub struct Hash(pub [u8; 32]);

impl View for Hash {
    type V = Seq<u8>;

    open spec fn view(&self) -> Seq<u8> {
        self.0@
    }
}

impl PartialEq for Hash {
    fn eq(&self, other: &Self) -> (r: bool) {
        proof {
            Hash::lemma_equal_by_bytes(*self, *other);
        }
        bytes_equal(self.0.as_slice(), other.0.as_slice())
    }
}

impl Eq for Hash {

}

impl PartialEqSpecImpl for Hash {
    open spec fn obeys_eq_spec() -> bool {
        true
    }

    open spec fn eq_spec(&self, other: &Self) -> bool {
        *self == *other
    }
}

impl Default for Hash {
    /// The value whose bytes are all zero.
    fn default() -> (r: Self)
        ensures
            r@ == zero_bytes(32),
    {
        let r = Hash([0u8; 32]);
        assert(r@ =~= zero_bytes(32));
        r
    }
}

impl Hash {
    /// The value made of the given bytes.
    pub fn new_from_array(bytes: [u8; 32]) -> (r: Self)
        ensures
            r.0 == bytes,
    {
        Hash(bytes)
    }

    /// The bytes of this value.
    pub fn to_bytes(&self) -> (bytes: [u8; 32])
        ensures
            bytes == self.0,
    {
        self.0
    }

    /// Two values are equal exactly when their bytes are.
    pub proof fn lemma_equal_by_bytes(a: Hash, b: Hash)
        ensures
            (a == b) <==> (a@ == b@),
    {
        if a@ == b@ {
            assert(a.0 =~= b.0);
        }
    }
}

/// A 64-byte signature.
#[derive(Clone, Copy, Debug, Hash)]
pub struct Signature(pub [u8; 64]);

impl View for Signature {
    type V = Seq<u8>;

    open spec fn view(&self) -> Seq<u8> {
        self.0@
    }
}

impl PartialEq for Signature {
    fn eq(&self, other: &Self) -> (r: bool) {
        proof {
            Signature::lemma_equal_by_bytes(*self, *other);
        }
        bytes_equal(self.0.as_slice(), other.0.as_slice())
    }
}

impl Eq for Signature {

}

impl PartialEqSpecImpl for Signature {
    open spec fn obeys_eq_spec() -> bool {
        true
    }

    open spec fn eq_spec(&self, other: &Self) -> bool {
        *self == *other
    }
}

impl Default for Signature {
    /// The value whose bytes are all zero.
    fn default() -> (r: Self)
        ensures
            r@ == zero_bytes(64),
    {
        let r = Signature([0u8; 64]);
        assert(r@ =~= zero_bytes(64));
        r
    }
}

impl Signature {
    /// The value made of the given bytes.
    pub fn new_from_array(bytes: [u8; 64]) -> (r: Self)
        ensures
            r.0 == bytes,
    {
        Signature(bytes)
    }

    /// The bytes of this value.
    pub fn to_bytes(&self) -> (bytes: [u8; 64])
        ensures
            bytes == self.0,
    {
        self.0
    }

    /// Two values are equal exactly when their bytes are.
    pub proof fn lemma_equal_by_bytes(a: Signature, b: Signature)
        ensures
            (a == b) <==> (a@ == b@),
    {
        if a@ == b@ {
            assert(a.0 =~= b.0);
        }
    }
}

} // verus!
