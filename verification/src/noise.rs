//! The patterns of the noise channel: the output bits of a linear feedback shift register,
//! over one whole period of 7 or 15 bits.

use vstd::prelude::*;

verus! {

/// One step of the shift register: shift right, and when the bit shifted out was one, flip
/// the bits of `generator`.
pub open spec fn rng_step(v: u16, generator: u16) -> u16 {
    if v & 1 != 0 {
        (v >> 1) ^ generator
    } else {
        v >> 1
    }
}

/// The register after `n` steps from `v`.
pub open spec fn rng_run(v: u16, generator: u16, n: nat) -> u16
    decreases n,
{
    if n == 0 {
        v
    } else {
        rng_run(rng_step(v, generator), generator, (n - 1) as nat)
    }
}

/// The register with all of its `bits` low bits set: where a pattern starts.
pub open spec fn all_ones(bits: u32) -> u16 {
    ((1u32 << bits) - 1) as u16
}

/// One step of the shift register.
pub fn sound_rng(v: u16, generator: u16) -> (r: u16)
    ensures
        r == rng_step(v, generator),
{
    let bit = v & 1;
    let next = v >> 1;
    if bit != 0 {
        next ^ generator
    } else {
        next
    }
}

proof fn lemma_run_step(v: u16, generator: u16, n: nat)
    ensures
        rng_run(v, generator, n + 1) == rng_step(rng_run(v, generator, n), generator),
    decreases n,
{
    if n > 0 {
        lemma_run_step(rng_step(v, generator), generator, (n - 1) as nat);
        assert(rng_run(v, generator, n + 1) == rng_run(rng_step(v, generator), generator, n));
        assert(rng_run(v, generator, n) == rng_run(rng_step(v, generator), generator, (n - 1) as nat));
    } else {
        assert(rng_run(v, generator, 1) == rng_run(rng_step(v, generator), generator, 0));
    }
}

/// Fills `out` with the low bit of the register at each step from all ones in the low `bits`
/// bits, and says whether the register came back to where it started: then `out` holds one
/// whole period.
pub fn generate_noise_array(out: &mut [u8], generator: u16, bits: u32) -> (closed: bool)
    requires
        bits < 16,
    ensures
        final(out)@.len() == old(out)@.len(),
        forall|i: int| 0 <= i < final(out)@.len() ==> #[trigger] final(out)@[i] == (rng_run(all_ones(bits), generator, i as nat) & 1) as u8,
        closed == (rng_run(all_ones(bits), generator, old(out)@.len() as nat) == all_ones(bits)),
{
    assert(1 <= 1u32 << bits) by (bit_vector)
        requires
            bits < 16,
    ;
    let start: u16 = ((1u32 << bits) - 1) as u16;
    assert(start == all_ones(bits));
    let mut v = start;
    let mut i: usize = 0;
    while i < out.len()
        invariant
            i <= out@.len(),
            out@.len() == old(out)@.len(),
            v == rng_run(all_ones(bits), generator, i as nat),
            forall|j: int| 0 <= j < i ==> #[trigger] out@[j] == (rng_run(all_ones(bits), generator, j as nat) & 1) as u8,
        decreases out@.len() - i,
    {
        assert(v & 1 <= 1) by (bit_vector);
        out[i] = (v & 1) as u8;
        proof { lemma_run_step(all_ones(bits), generator, i as nat); }
        v = sound_rng(v, generator);
        i = i + 1;
    }
    v == start
}

/// The 127 bits of the 7-bit noise pattern, and whether they make one whole period.
pub fn generate_noise_7_bit() -> (r: (Vec<u8>, bool))
    ensures
        r.0@.len() == 127,
        forall|i: int| 0 <= i < 127 ==> #[trigger] r.0@[i] == (rng_run(all_ones(7), 0b1000001, i as nat) & 1) as u8,
        r.1 == (rng_run(all_ones(7), 0b1000001, 127) == all_ones(7)),
{
    let mut pattern = vec![0u8; 127];
    let closed = generate_noise_array(pattern.as_mut_slice(), 0b1000001, 7);
    (pattern, closed)
}

/// The 32767 bits of the 15-bit noise pattern, and whether they make one whole period.
pub fn generate_noise_15_bit() -> (r: (Vec<u8>, bool))
    ensures
        r.0@.len() == 32767,
        forall|i: int| 0 <= i < 32767 ==> #[trigger] r.0@[i] == (rng_run(all_ones(15), 0b100000000000001, i as nat) & 1) as u8,
        r.1 == (rng_run(all_ones(15), 0b100000000000001, 32767) == all_ones(15)),
{
    let mut pattern = vec![0u8; 32767];
    let closed = generate_noise_array(pattern.as_mut_slice(), 0b100000000000001, 15);
    (pattern, closed)
}

} // verus!
