//! Byte-level encodings used by the indexer.
//!
//! Two encodings are correctness-bearing and therefore pinned exactly:
//! the lowercase hexadecimal rendering of byte strings (validator public
//! keys are stored and matched by their `0x`-prefixed hex form), and the
//! fixed-width little-endian serialization of 256-bit transaction values.

use vstd::prelude::*;

verus! {

/// The lowercase hexadecimal character for a nibble value below 16.
pub open spec fn hex_digit_char(n: u8) -> char
    recommends
        n < 16,
{
    if n == 0 {
        '0'
    } else if n == 1 {
        '1'
    } else if n == 2 {
        '2'
    } else if n == 3 {
        '3'
    } else if n == 4 {
        '4'
    } else if n == 5 {
        '5'
    } else if n == 6 {
        '6'
    } else if n == 7 {
        '7'
    } else if n == 8 {
        '8'
    } else if n == 9 {
        '9'
    } else if n == 10 {
        'a'
    } else if n == 11 {
        'b'
    } else if n == 12 {
        'c'
    } else if n == 13 {
        'd'
    } else if n == 14 {
        'e'
    } else {
        'f'
    }
}

/// Lowercase hexadecimal rendering of a byte string: two characters per
/// byte, high nibble first.
pub open spec fn hex_chars_of(b: Seq<u8>) -> Seq<char> {
    Seq::new(
        b.len() * 2,
        |i: int|
            if i % 2 == 0 {
                hex_digit_char(b[i / 2] / 16)
            } else {
                hex_digit_char(b[i / 2] % 16)
            },
    )
}

/// The `0x`-prefixed hexadecimal form under which a validator public key
/// is stored and matched.
pub open spec fn pubkey_hex_of(pk: Seq<u8>) -> Seq<char> {
    seq!['0', 'x'] + hex_chars_of(pk)
}

/// Relies on `hex::encode`: the result is the lowercase hexadecimal
/// rendering of the input, two digits per byte, high nibble first.
#[verifier::external_body]
fn hex_encode(b: &Vec<u8>) -> (r: String)
    ensures
        r@ == hex_chars_of(b@),
{
    hex::encode(b)
}

/// Render a validator public key in its stored form: `0x` followed by the
/// lowercase hexadecimal digits of the key's bytes.
pub fn pubkey_hex(pk: &Vec<u8>) -> (r: String)
    ensures
        r@ == pubkey_hex_of(pk@),
{
    let digits = hex_encode(pk);
    let mut r = "0x".to_owned();
    r.append(digits.as_str());
    proof {
        reveal_strlit("0x");
        assert(r@ =~= pubkey_hex_of(pk@));
    }
    r
}

/// Little-endian byte `i` of a 64-bit limb.
pub open spec fn u64_le_byte(v: u64, i: int) -> u8
    recommends
        0 <= i < 8,
{
    if i == 0 {
        (v % 256) as u8
    } else if i == 1 {
        ((v / 256) % 256) as u8
    } else if i == 2 {
        ((v / 0x10000) % 256) as u8
    } else if i == 3 {
        ((v / 0x1000000) % 256) as u8
    } else if i == 4 {
        ((v / 0x100000000) % 256) as u8
    } else if i == 5 {
        ((v / 0x10000000000) % 256) as u8
    } else if i == 6 {
        ((v / 0x1000000000000) % 256) as u8
    } else {
        ((v / 0x100000000000000) % 256) as u8
    }
}

/// The eight little-endian bytes of a 64-bit limb.
pub open spec fn u64_le_bytes(v: u64) -> Seq<u8> {
    Seq::new(8, |i: int| u64_le_byte(v, i))
}

/// The 32-byte little-endian storage form of a 256-bit value: the bytes
/// of each limb in turn, least significant limb first.
pub open spec fn u256_le_bytes(v: crate::primitives::U256) -> Seq<u8> {
    u64_le_bytes(v.limb0) + u64_le_bytes(v.limb1) + u64_le_bytes(v.limb2) + u64_le_bytes(v.limb3)
}

/// Append the eight little-endian bytes of one limb.
fn push_u64_le(out: &mut Vec<u8>, v: u64)
    ensures
        final(out)@ == old(out)@ + u64_le_bytes(v),
{
    out.push((v % 256) as u8);
    out.push(((v / 256) % 256) as u8);
    out.push(((v / 0x10000) % 256) as u8);
    out.push(((v / 0x1000000) % 256) as u8);
    out.push(((v / 0x100000000) % 256) as u8);
    out.push(((v / 0x10000000000) % 256) as u8);
    out.push(((v / 0x1000000000000) % 256) as u8);
    out.push(((v / 0x100000000000000) % 256) as u8);
    proof {
        assert(out@ =~= old(out)@ + u64_le_bytes(v));
    }
}

/// Serialize a 256-bit value into its 32-byte little-endian storage form.
pub fn u256_to_le_bytes(v: &crate::primitives::U256) -> (r: Vec<u8>)
    ensures
        r@ == u256_le_bytes(*v),
        r@.len() == 32,
{
    let mut r: Vec<u8> = Vec::new();
    push_u64_le(&mut r, v.limb0);
    push_u64_le(&mut r, v.limb1);
    push_u64_le(&mut r, v.limb2);
    push_u64_le(&mut r, v.limb3);
    proof {
        assert(r@ =~= u256_le_bytes(*v));
    }
    r
}

/// Read one limb back from eight little-endian bytes.
fn read_u64_le(b: &Vec<u8>, at: usize) -> (r: u64)
    requires
        at + 8 <= b@.len(),
    ensures
        u64_le_bytes(r) == b@.subrange(at as int, at as int + 8),
{
    let n = b.len();
    let r: u64 = (b[at] as u64) | ((b[at + 1] as u64) << 8u64) | ((b[at + 2] as u64) << 16u64) | ((
    b[at + 3] as u64) << 24u64) | ((b[at + 4] as u64) << 32u64) | ((b[at + 5] as u64) << 40u64) | ((
    b[at + 6] as u64) << 48u64) | ((b[at + 7] as u64) << 56u64);
    proof {
        let b0 = b@[at as int];
        let b1 = b@[at as int + 1];
        let b2 = b@[at as int + 2];
        let b3 = b@[at as int + 3];
        let b4 = b@[at as int + 4];
        let b5 = b@[at as int + 5];
        let b6 = b@[at as int + 6];
        let b7 = b@[at as int + 7];
        lemma_u64_le_bytes_of_or(b0, b1, b2, b3, b4, b5, b6, b7, r);
        assert(u64_le_bytes(r) =~= b@.subrange(at as int, at as int + 8));
    }
    r
}

/// The little-endian byte decomposition of a limb assembled from eight
/// shifted bytes is exactly those bytes.
proof fn lemma_u64_le_bytes_of_or(
    b0: u8,
    b1: u8,
    b2: u8,
    b3: u8,
    b4: u8,
    b5: u8,
    b6: u8,
    b7: u8,
    v: u64,
)
    requires
        v == (b0 as u64) | ((b1 as u64) << 8u64) | ((b2 as u64) << 16u64) | ((b3 as u64) << 24u64)
            | ((b4 as u64) << 32u64) | ((b5 as u64) << 40u64) | ((b6 as u64) << 48u64) | ((
        b7 as u64) << 56u64),
    ensures
        u64_le_byte(v, 0) == b0,
        u64_le_byte(v, 1) == b1,
        u64_le_byte(v, 2) == b2,
        u64_le_byte(v, 3) == b3,
        u64_le_byte(v, 4) == b4,
        u64_le_byte(v, 5) == b5,
        u64_le_byte(v, 6) == b6,
        u64_le_byte(v, 7) == b7,
{
    assert(v % 256 == b0 as u64 && (v / 256) % 256 == b1 as u64 && (v / 0x10000) % 256
        == b2 as u64 && (v / 0x1000000) % 256 == b3 as u64 && (v / 0x100000000) % 256 == b4 as u64
        && (v / 0x10000000000) % 256 == b5 as u64 && (v / 0x1000000000000) % 256 == b6 as u64 && (v
        / 0x100000000000000) % 256 == b7 as u64) by (bit_vector)
        requires
            v == (b0 as u64) | ((b1 as u64) << 8u64) | ((b2 as u64) << 16u64) | ((b3 as u64)
                << 24u64) | ((b4 as u64) << 32u64) | ((b5 as u64) << 40u64) | ((b6 as u64)
                << 48u64) | ((b7 as u64) << 56u64),
    ;
}

/// Deserialize a 256-bit value from its 32-byte little-endian storage
/// form; the inverse of `u256_to_le_bytes`.
pub fn u256_from_le_bytes(b: &Vec<u8>) -> (r: crate::primitives::U256)
    requires
        b@.len() == 32,
    ensures
        u256_le_bytes(r) == b@,
{
    let limb0 = read_u64_le(b, 0);
    let limb1 = read_u64_le(b, 8);
    let limb2 = read_u64_le(b, 16);
    let limb3 = read_u64_le(b, 24);
    let r = crate::primitives::U256 { limb0, limb1, limb2, limb3 };
    proof {
        assert(u256_le_bytes(r) =~= b@);
    }
    r
}

/// The position of each limb's bytes inside the 32-byte form.
proof fn lemma_u256_le_bytes_parts(v: crate::primitives::U256)
    ensures
        u256_le_bytes(v).len() == 32,
        forall|k: int| 0 <= k < 8 ==> u256_le_bytes(v)[k] == u64_le_bytes(v.limb0)[k],
        forall|k: int| 0 <= k < 8 ==> u256_le_bytes(v)[8 + k] == u64_le_bytes(v.limb1)[k],
        forall|k: int| 0 <= k < 8 ==> u256_le_bytes(v)[16 + k] == u64_le_bytes(v.limb2)[k],
        forall|k: int| 0 <= k < 8 ==> u256_le_bytes(v)[24 + k] == u64_le_bytes(v.limb3)[k],
{
    assert(u64_le_bytes(v.limb0).len() == 8);
    assert(u64_le_bytes(v.limb1).len() == 8);
    assert(u64_le_bytes(v.limb2).len() == 8);
    assert(u64_le_bytes(v.limb3).len() == 8);
}

/// The storage encoding is injective: equal byte forms decode from equal
/// values, so a value can be recovered exactly from its stored bytes.
#[verifier::rlimit(50)]
pub proof fn lemma_u256_le_bytes_injective(a: crate::primitives::U256, b: crate::primitives::U256)
    requires
        u256_le_bytes(a) == u256_le_bytes(b),
    ensures
        a == b,
{
    lemma_u256_le_bytes_parts(a);
    lemma_u256_le_bytes_parts(b);
    assert(u64_le_bytes(a.limb0) =~= u64_le_bytes(b.limb0)) by {
        assert forall|k: int| 0 <= k < 8 implies u64_le_bytes(a.limb0)[k] == u64_le_bytes(
            b.limb0,
        )[k] by {
            assert(u256_le_bytes(a)[k] == u64_le_bytes(a.limb0)[k]);
            assert(u256_le_bytes(b)[k] == u64_le_bytes(b.limb0)[k]);
        }
    }
    assert(u64_le_bytes(a.limb1) =~= u64_le_bytes(b.limb1)) by {
        assert forall|k: int| 0 <= k < 8 implies u64_le_bytes(a.limb1)[k] == u64_le_bytes(
            b.limb1,
        )[k] by {
            assert(u256_le_bytes(a)[8 + k] == u64_le_bytes(a.limb1)[k]);
            assert(u256_le_bytes(b)[8 + k] == u64_le_bytes(b.limb1)[k]);
        }
    }
    assert(u64_le_bytes(a.limb2) =~= u64_le_bytes(b.limb2)) by {
        assert forall|k: int| 0 <= k < 8 implies u64_le_bytes(a.limb2)[k] == u64_le_bytes(
            b.limb2,
        )[k] by {
            assert(u256_le_bytes(a)[16 + k] == u64_le_bytes(a.limb2)[k]);
            assert(u256_le_bytes(b)[16 + k] == u64_le_bytes(b.limb2)[k]);
        }
    }
    assert(u64_le_bytes(a.limb3) =~= u64_le_bytes(b.limb3)) by {
        assert forall|k: int| 0 <= k < 8 implies u64_le_bytes(a.limb3)[k] == u64_le_bytes(
            b.limb3,
        )[k] by {
            assert(u256_le_bytes(a)[24 + k] == u64_le_bytes(a.limb3)[k]);
            assert(u256_le_bytes(b)[24 + k] == u64_le_bytes(b.limb3)[k]);
        }
    }
    lemma_u64_le_bytes_injective(a.limb0, b.limb0);
    lemma_u64_le_bytes_injective(a.limb1, b.limb1);
    lemma_u64_le_bytes_injective(a.limb2, b.limb2);
    lemma_u64_le_bytes_injective(a.limb3, b.limb3);
}

/// Two limbs with the same little-endian bytes are equal.
proof fn lemma_u64_le_bytes_injective(x: u64, y: u64)
    requires
        u64_le_bytes(x) == u64_le_bytes(y),
    ensures
        x == y,
{
    assert forall|k: int| 0 <= k < 8 implies u64_le_byte(x, k) == u64_le_byte(y, k) by {
        assert(u64_le_bytes(x)[k] == u64_le_byte(x, k));
        assert(u64_le_bytes(y)[k] == u64_le_byte(y, k));
    }
    assert((x % 256) == (y % 256)) by {
        assert(u64_le_byte(x, 0) == u64_le_byte(y, 0));
        assert(((x % 256) as u8) as u64 == x % 256);
        assert(((y % 256) as u8) as u64 == y % 256);
    }
    assert(((x / 256) % 256) == ((y / 256) % 256)) by {
        assert(u64_le_byte(x, 1) == u64_le_byte(y, 1));
        assert((((x / 256) % 256) as u8) as u64 == (x / 256) % 256);
        assert((((y / 256) % 256) as u8) as u64 == (y / 256) % 256);
    }
    assert(((x / 0x10000) % 256) == ((y / 0x10000) % 256)) by {
        assert(u64_le_byte(x, 2) == u64_le_byte(y, 2));
        assert((((x / 0x10000) % 256) as u8) as u64 == (x / 0x10000) % 256);
        assert((((y / 0x10000) % 256) as u8) as u64 == (y / 0x10000) % 256);
    }
    assert(((x / 0x1000000) % 256) == ((y / 0x1000000) % 256)) by {
        assert(u64_le_byte(x, 3) == u64_le_byte(y, 3));
        assert((((x / 0x1000000) % 256) as u8) as u64 == (x / 0x1000000) % 256);
        assert((((y / 0x1000000) % 256) as u8) as u64 == (y / 0x1000000) % 256);
    }
    assert(((x / 0x100000000) % 256) == ((y / 0x100000000) % 256)) by {
        assert(u64_le_byte(x, 4) == u64_le_byte(y, 4));
        assert((((x / 0x100000000) % 256) as u8) as u64 == (x / 0x100000000) % 256);
        assert((((y / 0x100000000) % 256) as u8) as u64 == (y / 0x100000000) % 256);
    }
    assert(((x / 0x10000000000) % 256) == ((y / 0x10000000000) % 256)) by {
        assert(u64_le_byte(x, 5) == u64_le_byte(y, 5));
        assert((((x / 0x10000000000) % 256) as u8) as u64 == (x / 0x10000000000) % 256);
        assert((((y / 0x10000000000) % 256) as u8) as u64 == (y / 0x10000000000) % 256);
    }
    assert(((x / 0x1000000000000) % 256) == ((y / 0x1000000000000) % 256)) by {
        assert(u64_le_byte(x, 6) == u64_le_byte(y, 6));
        assert((((x / 0x1000000000000) % 256) as u8) as u64 == (x / 0x1000000000000) % 256);
        assert((((y / 0x1000000000000) % 256) as u8) as u64 == (y / 0x1000000000000) % 256);
    }
    assert(((x / 0x100000000000000) % 256) == ((y / 0x100000000000000) % 256)) by {
        assert(u64_le_byte(x, 7) == u64_le_byte(y, 7));
        assert((((x / 0x100000000000000) % 256) as u8) as u64 == (x / 0x100000000000000) % 256);
        assert((((y / 0x100000000000000) % 256) as u8) as u64 == (y / 0x100000000000000) % 256);
    }
    assert(x == y) by (bit_vector)
        requires
            (x % 256) == (y % 256),
            ((x / 256) % 256) == ((y / 256) % 256),
            ((x / 0x10000) % 256) == ((y / 0x10000) % 256),
            ((x / 0x1000000) % 256) == ((y / 0x1000000) % 256),
            ((x / 0x100000000) % 256) == ((y / 0x100000000) % 256),
            ((x / 0x10000000000) % 256) == ((y / 0x10000000000) % 256),
            ((x / 0x1000000000000) % 256) == ((y / 0x1000000000000) % 256),
            ((x / 0x100000000000000) % 256) == ((y / 0x100000000000000) % 256),
    ;
}

} // verus!
