//! The gradient vector builder: corner -> digest -> seeded byte stream ->
//! signs with one axis forced to zero.

use crate::digest::corner_digest;
use crate::digest::spec_corner_digest;
use crate::rng::draw_bytes;
use crate::rng::rng_stream;
use vstd::prelude::*;

verus! {

/// The one failure of gradient generation: a corner with fewer than two
/// coordinates has no unit gradient of this shape, since the scaling
/// factor 1 / sqrt(n - 1) is not finite there.
#[derive(Debug, Clone, Copy, PartialEq, Eq)]
pub enum GradientError {
    InvalidDimension,
}

/// A gradient, held as integer signs. Component `i` of the floating-point
/// vector is `signs[i] * k` with `k = 1 / sqrt(n - 1)`; the axis
/// `zero_index` is exactly zero.
#[derive(Debug, Clone, PartialEq, Eq)]
pub struct Gradient {
    /// One entry per coordinate: `1`, `-1`, or `0` at the zeroed axis.
    pub signs: Vec<i8>,
    /// The axis whose component is forced to exactly zero.
    pub zero_index: usize,
}

impl Gradient {
    /// What every gradient returned by this crate satisfies: at least two
    /// components, the zeroed axis in range and holding zero, and every
    /// other component a full positive or negative step.
    pub open spec fn wf(&self) -> bool {
        &&& self.signs@.len() >= 2
        &&& (self.zero_index as int) < self.signs@.len()
        &&& self.signs@[self.zero_index as int] == 0
        &&& forall|i: int|
            0 <= i < self.signs@.len() && i != self.zero_index as int ==> (self.signs@[i] == 1
                || self.signs@[i] == -1)
    }
}

/// The direction one stream byte yields: an odd byte steps up, an even
/// byte steps down.
pub open spec fn sign_of_byte(b: u8) -> i8 {
    if b % 2 == 1 {
        1i8
    } else {
        -1i8
    }
}

/// The provisional signs, before any axis is zeroed: one direction per
/// coordinate, drawn from the first `n` bytes of the stream.
pub open spec fn raw_signs(n: int, s: Seq<u8>) -> Seq<i8>
    recommends
        0 <= n <= s.len(),
{
    Seq::new(n as nat, |i: int| sign_of_byte(s[i]))
}

/// Eight bytes of `s`, starting at `off`, read as one little-endian
/// integer.
pub open spec fn le_u64_of(s: Seq<u8>, off: int) -> int
    recommends
        0 <= off,
        off + 8 <= s.len(),
{
    s[off] + 256 * (s[off + 1] + 256 * (s[off + 2] + 256 * (s[off + 3] + 256 * (s[off + 4] + 256
        * (s[off + 5] + 256 * (s[off + 6] + 256 * s[off + 7]))))))
}

/// The axis the stream selects for zeroing: the eight bytes after the
/// `n` direction bytes, read as a little-endian integer, reduced modulo
/// `n`.
pub open spec fn spec_zero_index_of_stream(n: int, s: Seq<u8>) -> int
    recommends
        2 <= n,
        s.len() == n + 8,
{
    le_u64_of(s, n) % n
}

/// The signs a stream of `n + 8` bytes yields: `n` provisional
/// directions with the selected axis overwritten by zero.
pub open spec fn spec_gradient_of_stream(n: int, s: Seq<u8>) -> Seq<i8>
    recommends
        2 <= n,
        s.len() == n + 8,
{
    raw_signs(n, s).update(spec_zero_index_of_stream(n, s), 0i8)
}

/// The sign sequence of the gradient of a corner: the corner's digest
/// seeds the generator, and the generator's first `n + 8` bytes determine
/// the directions and the zeroed axis.
pub open spec fn spec_gradient(c: Seq<u32>) -> Seq<i8>
    recommends
        c.len() >= 2,
{
    spec_gradient_of_stream(
        c.len() as int,
        rng_stream(spec_corner_digest(c), (c.len() + 8) as nat),
    )
}

/// The zeroed axis of the gradient of a corner.
pub open spec fn spec_zero_index(c: Seq<u32>) -> int
    recommends
        c.len() >= 2,
{
    spec_zero_index_of_stream(
        c.len() as int,
        rng_stream(spec_corner_digest(c), (c.len() + 8) as nat),
    )
}

/// Reads the eight bytes `stream[n .. n + 8]` as a little-endian integer
/// and reduces it modulo `n`.
fn zero_index_from_stream(n: usize, stream: &Vec<u8>) -> (j: usize)
    requires
        2 <= n,
        stream@.len() == n + 8,
    ensures
        j as int == spec_zero_index_of_stream(n as int, stream@),
        j < n,
{
    let m = stream.len();
    let mut v: u64 = stream[m - 1] as u64;
    assert(v < 0x100);
    v = v * 256 + (stream[m - 2] as u64);
    assert(v < 0x10000);
    v = v * 256 + (stream[m - 3] as u64);
    assert(v < 0x1000000);
    v = v * 256 + (stream[m - 4] as u64);
    assert(v < 0x100000000);
    v = v * 256 + (stream[m - 5] as u64);
    assert(v < 0x10000000000);
    v = v * 256 + (stream[m - 6] as u64);
    assert(v < 0x1000000000000);
    v = v * 256 + (stream[m - 7] as u64);
    assert(v < 0x100000000000000);
    v = v * 256 + (stream[m - 8] as u64);
    assert(v as int == le_u64_of(stream@, n as int));
    let j = (v % (n as u64)) as usize;
    j
}

/// Builds the gradient from a drawn byte stream: one direction per
/// coordinate from the first `n` bytes, then the axis selected by the
/// last eight bytes forced to zero.
pub fn build_from_stream(n: usize, stream: &Vec<u8>) -> (g: Gradient)
    requires
        2 <= n,
        stream@.len() == n + 8,
    ensures
        g.wf(),
        g.signs@ == spec_gradient_of_stream(n as int, stream@),
        g.signs@.len() == n,
        g.zero_index as int == spec_zero_index_of_stream(n as int, stream@),
{
    let mut signs: Vec<i8> = Vec::new();
    let mut i: usize = 0;
    while i < n
        invariant
            i <= n,
            2 <= n,
            stream@.len() == n + 8,
            signs@ == raw_signs(i as int, stream@),
        decreases n - i,
    {
        let b = stream[i];
        if b % 2 == 1 {
            signs.push(1i8);
        } else {
            signs.push(-1i8);
        }
        proof {
            assert(signs@ =~= raw_signs(i + 1, stream@));
        }
        i += 1;
    }
    let j = zero_index_from_stream(n, stream);
    signs[j] = 0i8;
    let g = Gradient { signs, zero_index: j };
    proof {
        assert(g.signs@ =~= spec_gradient_of_stream(n as int, stream@));
    }
    g
}

/// Generates the gradient for a corner.
///
/// A corner of fewer than two coordinates is rejected with
/// `InvalidDimension`; every other corner deterministically yields the
/// gradient `spec_gradient(corner@)`: the same corner always gives the
/// same result. The length bound only asks that the corner leave room in
/// `usize` for the eight index bytes drawn after the direction bytes,
/// which any corner that fits in memory does.
pub fn create_gradient(corner: &Vec<u32>) -> (r: Result<Gradient, GradientError>)
    requires
        corner@.len() + 8 <= usize::MAX,
    ensures
        match r {
            Ok(g) => {
                &&& corner@.len() >= 2
                &&& g.wf()
                &&& g.signs@ == spec_gradient(corner@)
                &&& g.signs@.len() == corner@.len()
                &&& g.zero_index as int == spec_zero_index(corner@)
            },
            Err(e) => corner@.len() < 2 && e == GradientError::InvalidDimension,
        },
{
    let n = corner.len();
    if n < 2 {
        return Err(GradientError::InvalidDimension);
    }
    let d = corner_digest(corner);
    let stream = draw_bytes(d, n + 8);
    let g = build_from_stream(n, &stream);
    Ok(g)
}

/// The sum of the squares of a sign sequence: the squared Euclidean norm
/// of the gradient, measured in units of `k^2`.
pub open spec fn sum_sq(s: Seq<i8>) -> int
    decreases s.len(),
{
    if s.len() == 0 {
        0
    } else {
        sum_sq(s.drop_last()) + s.last() * s.last()
    }
}

proof fn lemma_sum_sq_all_steps(s: Seq<i8>)
    requires
        forall|i: int| 0 <= i < s.len() ==> (s[i] == 1 || s[i] == -1),
    ensures
        sum_sq(s) == s.len(),
    decreases s.len(),
{
    if s.len() > 0 {
        lemma_sum_sq_all_steps(s.drop_last());
    }
}

proof fn lemma_sum_sq_one_zero(s: Seq<i8>, j: int)
    requires
        0 <= j < s.len(),
        s[j] == 0,
        forall|i: int| 0 <= i < s.len() && i != j ==> (s[i] == 1 || s[i] == -1),
    ensures
        sum_sq(s) == s.len() - 1,
    decreases s.len(),
{
    let t = s.drop_last();
    assert(forall|i: int| 0 <= i < t.len() ==> t[i] == s[i]);
    if j == s.len() - 1 {
        lemma_sum_sq_all_steps(t);
        assert(sum_sq(s) == sum_sq(t) + s.last() * s.last());
        assert(s.last() == 0);
    } else {
        lemma_sum_sq_one_zero(t, j);
        assert(sum_sq(s) == sum_sq(t) + s.last() * s.last());
        assert(s.last() == 1 || s.last() == -1);
    }
}

/// Determinism: the gradient is a function of the corner alone, so two
/// gradients built from the same corner carry identical signs, whether
/// the calls happen in one process or in two.
pub proof fn lemma_gradient_deterministic(c: Seq<u32>, g1: Gradient, g2: Gradient)
    requires
        g1.signs@ == spec_gradient(c),
        g2.signs@ == spec_gradient(c),
    ensures
        g1.signs@ == g2.signs@,
{
}

/// Dimension preservation: the gradient of a corner has exactly as many
/// components as the corner has coordinates.
pub proof fn lemma_dimension_preserved(c: Seq<u32>)
    requires
        c.len() >= 2,
    ensures
        spec_gradient(c).len() == c.len(),
{
}

/// Exactly one zero: the selected axis is in range and is the one and
/// only zero component; every other component is a full positive or
/// negative step.
pub proof fn lemma_exactly_one_zero(c: Seq<u32>)
    requires
        c.len() >= 2,
    ensures
        0 <= spec_zero_index(c) < c.len(),
        forall|i: int|
            0 <= i < c.len() ==> (spec_gradient(c)[i] == 0 <==> i == spec_zero_index(c)),
        forall|i: int|
            0 <= i < c.len() && i != spec_zero_index(c) ==> (spec_gradient(c)[i] == 1
                || spec_gradient(c)[i] == -1),
{
    let n = c.len() as int;
    let s = rng_stream(spec_corner_digest(c), (c.len() + 8) as nat);
    assert(0 <= le_u64_of(s, n) % n < n) by {
        vstd::arithmetic::div_mod::lemma_mod_bound(le_u64_of(s, n), n);
    }
}

/// Unit magnitude, in integer form: the squares of the signs add up to
/// `n - 1`. Scaling every component by `k = 1 / sqrt(n - 1)` therefore
/// gives a squared Euclidean norm of `(n - 1) * k^2 = 1`: the
/// floating-point gradient is a unit vector up to rounding.
pub proof fn lemma_unit_magnitude(c: Seq<u32>)
    requires
        c.len() >= 2,
    ensures
        sum_sq(spec_gradient(c)) == c.len() - 1,
{
    lemma_exactly_one_zero(c);
    lemma_sum_sq_one_zero(spec_gradient(c), spec_zero_index(c));
}

} // verus!
