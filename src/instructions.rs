use vstd::prelude::*;
use vstd::arithmetic::power::pow;

verus! {

/// Tag of the compute-budget program's "set compute unit price" instruction.
pub const SET_COMPUTE_UNIT_PRICE_TAG: u8 = 3;

/// Priority fee, in micro-lamports per compute unit, attached to each chunk write.
pub const CHUNK_PRIORITY_FEE: u64 = 50_000;

/// Byte `i` of `x` in little-endian order.
pub open spec fn le_byte(x: u64, i: nat) -> u8 {
    ((x as int / pow(256, i)) % 256) as u8
}

/// The eight little-endian bytes of `x`.
pub open spec fn le_bytes(x: u64) -> Seq<u8> {
    Seq::new(8, |i: int| le_byte(x, i as nat))
}

/// Instruction data that sets the compute unit price: the tag, then the
/// price as a little-endian `u64`.
pub fn compute_unit_price_data(micro_lamports: u64) -> (r: Vec<u8>)
    ensures
        r@ == seq![SET_COMPUTE_UNIT_PRICE_TAG] + le_bytes(micro_lamports),
{
    let mut data: Vec<u8> = Vec::new();
    data.push(SET_COMPUTE_UNIT_PRICE_TAG);
    let mut rest: u64 = micro_lamports;
    let mut i: usize = 0;
    proof {
        vstd::arithmetic::power::lemma_pow0(256);
    }
    while i < 8
        invariant
            i <= 8,
            rest as int == micro_lamports as int / pow(256, i as nat),
            data@ == seq![SET_COMPUTE_UNIT_PRICE_TAG] + le_bytes(micro_lamports).take(i as int),
        decreases 8 - i,
    {
        data.push((rest % 256) as u8);
        proof {
            vstd::arithmetic::power::lemma_pow_positive(256, i as nat);
            vstd::arithmetic::div_mod::lemma_div_denominator(micro_lamports as int, pow(256, i as nat), 256);
            assert(pow(256, (i + 1) as nat) == 256 * pow(256, i as nat)) by {
                reveal(pow);
            }
            assert(pow(256, i as nat) * 256 == 256 * pow(256, i as nat)) by (nonlinear_arith);
            assert(data@ =~= seq![SET_COMPUTE_UNIT_PRICE_TAG] + le_bytes(micro_lamports).take(i + 1));
        }
        rest = rest / 256;
        i = i + 1;
    }
    assert(le_bytes(micro_lamports).take(8) =~= le_bytes(micro_lamports));
    data
}

} // verus!
