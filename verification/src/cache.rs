use vstd::prelude::*;

use crate::convert::narrow_to_half_bits;
use crate::convert::spec_narrow_to_half_bits;
use crate::convert::spec_widen_half_bits;
use crate::convert::widen_half_bits;

verus! {

/// The 32-bit pattern returned by `libm::expf` for the full-precision value
/// with pattern `x`: the natural exponential, evaluated in full precision.
/// The result depends on the argument alone.
pub uninterp spec fn exp_bits_of(x: u32) -> u32;

/// The 32-bit pattern of the GELU (Gaussian Error Linear Unit) activation of
/// the full-precision value with pattern `x`, evaluated in full precision
/// through `libm::erff`. The result depends on the argument alone.
pub uninterp spec fn gelu_bits_of(x: u32) -> u32;

/// Relies on `libm::expf`: the natural exponential of a full-precision
/// value, a pure function of its argument. `bytemuck::cast` reinterprets the
/// 32-bit pattern as the full-precision value and back.
#[verifier::external_body]
fn exp_single_bits(x: u32) -> (r: u32)
    ensures
        r == exp_bits_of(x),
{
    libm::expf(bytemuck::cast(x)).to_bits()
}

/// Relies on `libm::erff`, `libm::sqrtf` and `libm::scalbnf`, and on
/// full-precision arithmetic: evaluates the GELU activation
/// `v * (1 + erf(v / sqrt(2))) / 2` of the value `v` with pattern `x`, a
/// pure function of its argument. `bytemuck::cast` reinterprets the 32-bit
/// pattern as the full-precision value.
#[verifier::external_body]
fn gelu_single_bits(x: u32) -> (r: u32)
    ensures
        r == gelu_bits_of(x),
{
    let v = libm::copysignf(bytemuck::cast(x), bytemuck::cast(x));
    let one = libm::sqrtf((1u8).into());
    let erf = libm::erff(v / libm::sqrtf((2u8).into()));
    let g = libm::scalbnf(v * (erf + one), -1);
    g.to_bits()
}

/// The table entry for the half-precision pattern `h` under the exponential:
/// widen to full precision, apply the function, round back to half
/// precision.
pub open spec fn exp_half_bits(h: u16) -> u16 {
    spec_narrow_to_half_bits(exp_bits_of(spec_widen_half_bits(h)))
}

/// The table entry for the half-precision pattern `h` under the GELU
/// activation: widen to full precision, apply the function, round back to
/// half precision.
pub open spec fn gelu_half_bits(h: u16) -> u16 {
    spec_narrow_to_half_bits(gelu_bits_of(spec_widen_half_bits(h)))
}

/// `s` is the exponential lookup table: one entry per half-precision bit
/// pattern, holding the half-precision rounding of the exponential of that
/// pattern's value, with no exception for zeros, subnormals, infinities or
/// NaN patterns.
pub open spec fn is_exp_table(s: Seq<u16>) -> bool {
    &&& s.len() == 65536
    &&& forall|i: int| 0 <= i < 65536 ==> s[i] == exp_half_bits(i as u16)
}

/// `s` is the GELU lookup table, one entry per half-precision bit pattern.
pub open spec fn is_gelu_table(s: Seq<u16>) -> bool {
    &&& s.len() == 65536
    &&& forall|i: int| 0 <= i < 65536 ==> s[i] == gelu_half_bits(i as u16)
}

/// Builds the exponential lookup table: entry `i` is the half-precision
/// rounding of the exponential of the half-precision value with pattern `i`,
/// evaluated in full precision.
pub fn build_exp_table() -> (r: Vec<u16>)
    ensures
        is_exp_table(r@),
{
    let mut table: Vec<u16> = Vec::new();
    for i in 0usize..65536
        invariant
            table@.len() == i,
            forall|j: int| 0 <= j < i ==> table@[j] == exp_half_bits(j as u16),
    {
        table.push(narrow_to_half_bits(exp_single_bits(widen_half_bits(i as u16))));
    }
    table
}

/// Builds the GELU lookup table: entry `i` is the half-precision rounding of
/// the GELU activation of the half-precision value with pattern `i`,
/// evaluated in full precision.
pub fn build_gelu_table() -> (r: Vec<u16>)
    ensures
        is_gelu_table(r@),
{
    let mut table: Vec<u16> = Vec::new();
    for i in 0usize..65536
        invariant
            table@.len() == i,
            forall|j: int| 0 <= j < i ==> table@[j] == gelu_half_bits(j as u16),
    {
        table.push(narrow_to_half_bits(gelu_single_bits(widen_half_bits(i as u16))));
    }
    table
}

/// Law: the exponential lookup table is uniquely determined — any two tables
/// that satisfy its description hold identical contents.
pub proof fn lemma_exp_table_unique(s1: Seq<u16>, s2: Seq<u16>)
    requires
        is_exp_table(s1),
        is_exp_table(s2),
    ensures
        s1 == s2,
{
    assert(s1 =~= s2);
}

/// Law: the GELU lookup table is uniquely determined — any two tables that
/// satisfy its description hold identical contents. In particular every
/// lookup of the device's lazily built GELU cache observes the same table.
pub proof fn lemma_gelu_table_unique(s1: Seq<u16>, s2: Seq<u16>)
    requires
        is_gelu_table(s1),
        is_gelu_table(s2),
    ensures
        s1 == s2,
{
    assert(s1 =~= s2);
}

} // verus!
