//! Plain-value forms of the chain's primitive types.
//!
//! Hashes and 256-bit integers cross the crate boundary as explicit byte
//! and limb values, so that every field the indexer reads or stores is a
//! value the contracts can speak about.

use vstd::prelude::*;

verus! {

/// Copy a byte string.
pub fn clone_bytes(v: &Vec<u8>) -> (r: Vec<u8>)
    ensures
        r@ == v@,
{
    let r = v.clone();
    proof {
        assert forall|i: int| 0 <= i < v@.len() implies r@[i] == v@[i] by {
            assert(vstd::pervasive::cloned::<u8>(v[i], r[i]));
        }
        assert(r@ =~= v@);
    }
    r
}

/// Compare two byte strings for equality.
pub fn bytes_eq(a: &Vec<u8>, b: &Vec<u8>) -> (r: bool)
    ensures
        r == (a@ == b@),
{
    if a.len() != b.len() {
        proof {
            if a@ == b@ {
                assert(a@.len() == b@.len());
            }
        }
        return false;
    }
    let n = a.len();
    let mut i: usize = 0;
    while i < n
        invariant
            n == a@.len(),
            n == b@.len(),
            0 <= i <= n,
            forall|k: int| 0 <= k < i ==> a@[k] == b@[k],
        decreases n - i,
    {
        if a[i] != b[i] {
            proof {
                if a@ == b@ {
                    assert(a@[i as int] == b@[i as int]);
                }
            }
            return false;
        }
        i += 1;
    }
    proof {
        assert(a@ =~= b@);
    }
    true
}

/// A 32-byte hash (block hashes, transaction hashes, state roots).
#[derive(Debug)]
pub struct Hash256 {
    pub bytes: Vec<u8>,
}

impl Clone for Hash256 {
    fn clone(&self) -> (r: Hash256)
        ensures
            r@ == self@,
    {
        Hash256 { bytes: clone_bytes(&self.bytes) }
    }
}

impl DeepView for Hash256 {
    type V = Seq<u8>;

    open spec fn deep_view(&self) -> Seq<u8> {
        self@
    }
}

impl View for Hash256 {
    type V = Seq<u8>;

    open spec fn view(&self) -> Seq<u8> {
        self.bytes@
    }
}

impl Hash256 {
    /// A hash is exactly 32 bytes long.
    pub open spec fn wf(&self) -> bool {
        self@.len() == 32
    }

    pub fn new(bytes: Vec<u8>) -> (r: Hash256)
        requires
            bytes@.len() == 32,
        ensures
            r@ == bytes@,
            r.wf(),
    {
        Hash256 { bytes }
    }

    /// Whether two hashes hold the same bytes.
    pub fn matches(&self, other: &Hash256) -> (r: bool)
        ensures
            r == (self@ == other@),
    {
        bytes_eq(&self.bytes, &other.bytes)
    }
}



/// A 20-byte address (transaction senders and recipients).
#[derive(Debug)]
pub struct Hash160 {
    pub bytes: Vec<u8>,
}

impl Clone for Hash160 {
    fn clone(&self) -> (r: Hash160)
        ensures
            r@ == self@,
    {
        Hash160 { bytes: clone_bytes(&self.bytes) }
    }
}

impl DeepView for Hash160 {
    type V = Seq<u8>;

    open spec fn deep_view(&self) -> Seq<u8> {
        self@
    }
}

impl View for Hash160 {
    type V = Seq<u8>;

    open spec fn view(&self) -> Seq<u8> {
        self.bytes@
    }
}

impl Hash160 {
    /// An address is exactly 20 bytes long.
    pub open spec fn wf(&self) -> bool {
        self@.len() == 20
    }

    pub fn new(bytes: Vec<u8>) -> (r: Hash160)
        requires
            bytes@.len() == 20,
        ensures
            r@ == bytes@,
            r.wf(),
    {
        Hash160 { bytes }
    }

    /// Whether two addresses hold the same bytes.
    pub fn matches(&self, other: &Hash160) -> (r: bool)
        ensures
            r == (self@ == other@),
    {
        bytes_eq(&self.bytes, &other.bytes)
    }
}



/// Copy an optional hash.
pub fn clone_opt_hash256(o: &Option<Hash256>) -> (r: Option<Hash256>)
    ensures
        r.deep_view() == o.deep_view(),
{
    match o {
        Some(h) => Some(h.clone()),
        None => None,
    }
}

/// Copy an optional address.
pub fn clone_opt_hash160(o: &Option<Hash160>) -> (r: Option<Hash160>)
    ensures
        r.deep_view() == o.deep_view(),
{
    match o {
        Some(h) => Some(h.clone()),
        None => None,
    }
}

/// A 256-bit unsigned integer as four 64-bit limbs, least significant
/// limb first (transaction values).
#[derive(Debug, Clone, Copy, PartialEq, Eq, Structural)]
pub struct U256 {
    pub limb0: u64,
    pub limb1: u64,
    pub limb2: u64,
    pub limb3: u64,
}

impl U256 {
    pub fn zero() -> (r: U256)
        ensures
            r == (U256 { limb0: 0u64, limb1: 0u64, limb2: 0u64, limb3: 0u64 }),
    {
        U256 { limb0: 0, limb1: 0, limb2: 0, limb3: 0 }
    }
}

} // verus!
