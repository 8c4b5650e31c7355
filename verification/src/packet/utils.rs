use fnv::FnvHasher;
use std::hash::Hasher;
use vstd::prelude::*;

verus! {

/// Initial state of the 64-bit FNV-1a hash.
pub const FNV_OFFSET_BASIS: u64 = 0xcbf29ce484222325;

/// Multiplier of the 64-bit FNV-1a hash.
pub const FNV_PRIME: u64 = 0x100000001b3;

/// One round of FNV-1a: mix the byte into the state, then multiply modulo 2^64.
pub open spec fn fnv1a_step(state: u64, byte: u8) -> u64 {
    (((state ^ (byte as u64)) * FNV_PRIME) % 0x1_0000_0000_0000_0000) as u64
}

/// The FNV-1a state after hashing `bytes`, in order, starting from `state`.
pub open spec fn fnv1a_from(state: u64, bytes: Seq<u8>) -> u64
    decreases bytes.len(),
{
    if bytes.len() == 0 {
        state
    } else {
        fnv1a_step(fnv1a_from(state, bytes.drop_last()), bytes.last())
    }
}

/// The checksum of a byte sequence: its 64-bit FNV-1a hash.
pub open spec fn spec_checksum(bytes: Seq<u8>) -> u64 {
    fnv1a_from(FNV_OFFSET_BASIS, bytes)
}

/// `fnv::FnvHasher`: a hasher whose only content is its 64-bit state.
#[verifier::external_type_specification]
#[verifier::external_body]
pub struct ExFnvHasher(fnv::FnvHasher);

/// The state that a hasher holds.
pub uninterp spec fn hasher_state(hasher: FnvHasher) -> u64;

/// `<fnv::FnvHasher as Default>::default`.
///
/// Trusted: a new hasher holds [`FNV_OFFSET_BASIS`].
pub assume_specification[ <FnvHasher as Default>::default ]() -> (hasher: FnvHasher)
    ensures
        hasher_state(hasher) == FNV_OFFSET_BASIS,
;

/// `<fnv::FnvHasher as Hasher>::write`.
///
/// Trusted: for each byte in order, the state is replaced by
/// `(state ^ byte).wrapping_mul(FNV_PRIME)`.
pub assume_specification[ <FnvHasher as Hasher>::write ](hasher: &mut FnvHasher, bytes: &[u8])
    ensures
        hasher_state(*final(hasher)) == fnv1a_from(hasher_state(*old(hasher)), bytes@),
;

/// `<fnv::FnvHasher as Hasher>::finish`.
///
/// Trusted: the result is the state, which stays as it is.
pub assume_specification[ <FnvHasher as Hasher>::finish ](hasher: &FnvHasher) -> (state: u64)
    ensures
        state == hasher_state(*hasher),
;

/// Computes the checksum that a frame carries for its archive.
pub fn checksum(data: &[u8]) -> (sum: u64)
    ensures
        sum == spec_checksum(data@),
{
    let mut hasher = FnvHasher::default();

    hasher.write(data);

    hasher.finish()
}

/// Multiplying by the prime modulo 2^64 can be undone, by multiplying with the inverse
/// of the prime, so it loses nothing.
proof fn lemma_prime_product_injective(x: u64, y: u64)
    requires
        (x * FNV_PRIME) % 0x1_0000_0000_0000_0000 == (y * FNV_PRIME) % 0x1_0000_0000_0000_0000,
    ensures
        x == y,
{
    let m = 0x1_0000_0000_0000_0000int;
    let p = 0x100000001b3int;
    let q = 0xce965057aff6957bint;
    assert(p * q == 0xce9650590f * m + 1);
    assert forall|z: int| 0 <= z < m implies #[trigger] (((z * p) % m) * q) % m == z by {
        vstd::arithmetic::div_mod::lemma_mul_mod_noop_left(z * p, q, m);
        assert((z * p) * q == z * (p * q)) by (nonlinear_arith);
        assert(z * (0xce9650590f * m + 1) == (z * 0xce9650590f) * m + z) by (nonlinear_arith);
        vstd::arithmetic::div_mod::lemma_mod_multiples_vanish(z * 0xce9650590f, z, m);
        vstd::arithmetic::div_mod::lemma_small_mod(z as nat, m as nat);
    }
    assert((((x as int * p) % m) * q) % m == x);
    assert((((y as int * p) % m) * q) % m == y);
}

/// A round of FNV-1a loses nothing: the same state with another byte, or another
/// state with the same byte, gives another state.
proof fn lemma_step_injective(state1: u64, byte1: u8, state2: u64, byte2: u8)
    requires
        fnv1a_step(state1, byte1) == fnv1a_step(state2, byte2),
    ensures
        state1 == state2 ==> byte1 == byte2,
        byte1 == byte2 ==> state1 == state2,
{
    let mixed1 = state1 ^ (byte1 as u64);
    let mixed2 = state2 ^ (byte2 as u64);
    lemma_prime_product_injective(mixed1, mixed2);
    assert(state1 == state2 ==> byte1 == byte2) by (bit_vector)
        requires
            state1 ^ (byte1 as u64) == state2 ^ (byte2 as u64),
    ;
    assert(byte1 == byte2 ==> state1 == state2) by (bit_vector)
        requires
            state1 ^ (byte1 as u64) == state2 ^ (byte2 as u64),
    ;
}

/// Two byte sequences that differ in exactly one place have different checksums.
///
/// Every round of the hash is reversible, so a change in one byte is carried through
/// all the rounds after it: a change within a single byte is always detected.
pub proof fn lemma_checksum_detects_one_byte(a: Seq<u8>, b: Seq<u8>, index: int)
    requires
        a.len() == b.len(),
        0 <= index < a.len(),
        a[index] != b[index],
        forall|other: int| 0 <= other < a.len() && other != index ==> a[other] == b[other],
    ensures
        spec_checksum(a) != spec_checksum(b),
    decreases a.len(),
{
    let before_a = fnv1a_from(FNV_OFFSET_BASIS, a.drop_last());
    let before_b = fnv1a_from(FNV_OFFSET_BASIS, b.drop_last());
    if index == a.len() - 1 {
        assert(a.drop_last() =~= b.drop_last());
    } else {
        lemma_checksum_detects_one_byte(a.drop_last(), b.drop_last(), index);
    }
    if spec_checksum(a) == spec_checksum(b) {
        lemma_step_injective(before_a, a.last(), before_b, b.last());
    }
}

} // verus!
