use vstd::prelude::*;

verus! {

/// One step of Marsaglia's 32-bit xorshift generator (shifts 13, 17, 5).
pub open spec fn xorshift32_spec(x: u32) -> u32 {
    let a = x ^ (x << 13u32);
    let b = a ^ (a >> 17u32);
    b ^ (b << 5u32)
}

/// The generator state after `n` steps from `seed`.
pub open spec fn xorshift32_iter(seed: u32, n: nat) -> u32
    decreases n,
{
    if n == 0 {
        seed
    } else {
        xorshift32_spec(xorshift32_iter(seed, (n - 1) as nat))
    }
}

/// A small deterministic pseudo random number generator.
pub struct Prng {
    value: u32,
}

impl Prng {
    /// The current state of the generator.
    pub closed spec fn state(&self) -> u32 {
        self.value
    }

    /// A generator whose state is `seed`.
    pub fn new(seed: u32) -> (r: Self)
        ensures
            r.state() == seed,
    {
        Self { value: seed }
    }

    /// One xorshift step.
    pub fn xorshift32(input: u32) -> (r: u32)
        ensures
            r == xorshift32_spec(input),
    {
        let mut x = input;
        x ^= x << 13u32;
        x ^= x >> 17u32;
        x ^= x << 5u32;
        x
    }

    /// Advances the generator by one step and returns the new state.
    pub fn random_u32(&mut self) -> (r: u32)
        ensures
            r == xorshift32_spec(old(self).state()),
            final(self).state() == r,
    {
        self.value = Self::xorshift32(self.value);
        self.value
    }
}

/// The generator's state is zero exactly when the state before was zero:
/// a zero seed stays zero forever, any other seed never reaches zero.
pub proof fn lemma_xorshift32_zero(x: u32)
    ensures
        (xorshift32_spec(x) == 0) == (x == 0),
{
    assert(((x ^ (x << 13u32)) ^ ((x ^ (x << 13u32)) >> 17u32)) ^ (((x ^ (x << 13u32)) ^ ((x ^ (x
        << 13u32)) >> 17u32)) << 5u32) == 0 <==> x == 0) by (bit_vector);
}

/// From a zero seed every state is zero.
pub proof fn lemma_zero_seed_stays(n: nat)
    ensures
        xorshift32_iter(0, n) == 0,
    decreases n,
{
    if n > 0 {
        lemma_zero_seed_stays((n - 1) as nat);
        lemma_xorshift32_zero(0);
    }
}

} // verus!
