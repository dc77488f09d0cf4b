//! The seeded deterministic generator: a digest is expanded into a byte
//! stream through `rand`'s `StdRng`.

use vstd::prelude::*;

verus! {

/// The first `len` bytes of the stream that `rand::rngs::StdRng` yields
/// after being seeded from `digest`. The stream is a function of the
/// digest alone: the same digest gives the same bytes in every call and
/// every process.
pub uninterp spec fn rng_stream(digest: u64, len: nat) -> Seq<u8>;

/// Relies on `rand::rngs::StdRng` (`SeedableRng::seed_from_u64` and
/// `RngCore::fill_bytes`): `StdRng` is a deterministic block-cipher
/// generator with no platform dependence, and `seed_from_u64` expands the
/// 64-bit digest to the generator's native seed width by a fixed,
/// documented scheme. A generator seeded from a given value therefore
/// fills a buffer with bytes determined by that value and the buffer's
/// length alone.
#[verifier::external_body]
pub(crate) fn draw_bytes(digest: u64, len: usize) -> (r: Vec<u8>)
    ensures
        r@ == rng_stream(digest, len as nat),
        r@.len() == len,
{
    let mut generator = <rand::rngs::StdRng as rand::SeedableRng>::seed_from_u64(digest);
    let mut buf: Vec<u8> = Vec::new();
    buf.resize(len, 0u8);
    rand::RngCore::fill_bytes(&mut generator, buf.as_mut_slice());
    buf
}

} // verus!
