//! Corner hashing: a corner's coordinates are reduced to a stable 64-bit
//! digest by feeding each coordinate's bit pattern, in order, into
//! `std::collections::hash_map::DefaultHasher`.

use std::collections::hash_map::DefaultHasher;
use std::hash::Hasher;
use vstd::prelude::*;
use vstd::std_specs::hash::DefaultHasherAdditionalSpecFns;

verus! {

/// The four bytes of a 32-bit value, least significant first.
pub open spec fn le_bytes_of_u32(x: u32) -> Seq<u8> {
    seq![
        (x % 256) as u8,
        ((x / 256) % 256) as u8,
        ((x / 65536) % 256) as u8,
        ((x / 16777216) % 256) as u8,
    ]
}

/// The sequence of byte strings written to the hasher for a corner:
/// one four-byte write per coordinate, in coordinate order.
pub open spec fn corner_writes(c: Seq<u32>) -> Seq<Seq<u8>> {
    Seq::new(c.len(), |i: int| le_bytes_of_u32(c[i]))
}

/// The digest of a corner: what `DefaultHasher` yields after the writes
/// of `corner_writes`. A pure function of the coordinates and their order.
pub open spec fn spec_corner_digest(c: Seq<u32>) -> u64 {
    DefaultHasher::spec_finish(corner_writes(c))
}

/// Pushes the four bytes of `x`, least significant first, onto a fresh
/// vector.
fn u32_to_le_bytes(x: u32) -> (r: Vec<u8>)
    ensures
        r@ == le_bytes_of_u32(x),
{
    let mut r: Vec<u8> = Vec::new();
    r.push((x % 256) as u8);
    r.push(((x / 256) % 256) as u8);
    r.push(((x / 65536) % 256) as u8);
    r.push(((x / 16777216) % 256) as u8);
    proof {
        assert(r@ =~= le_bytes_of_u32(x));
    }
    r
}

/// Hashes a corner to its 64-bit digest: the same coordinates in the same
/// order always give the same digest.
pub fn corner_digest(corner: &Vec<u32>) -> (d: u64)
    ensures
        d == spec_corner_digest(corner@),
{
    let mut hasher = DefaultHasher::new();
    let n = corner.len();
    let mut i: usize = 0;
    while i < n
        invariant
            n == corner@.len(),
            i <= n,
            hasher@ == corner_writes(corner@.take(i as int)),
        decreases n - i,
    {
        let bytes = u32_to_le_bytes(corner[i]);
        hasher.write(bytes.as_slice());
        proof {
            assert(hasher@ =~= corner_writes(corner@.take(i + 1)));
        }
        i += 1;
    }
    proof {
        assert(corner@.take(n as int) =~= corner@);
    }
    hasher.finish()
}

} // verus!
