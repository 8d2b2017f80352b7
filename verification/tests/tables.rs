use crabml_core::convert::narrow_to_half_bits;
use crabml_core::convert::widen_half_bits;
use crabml_core::CpuTensorDevice;

fn exp_oracle(i: u16) -> u16 {
    let v = half::f16::from_bits(i).to_f32();
    half::f16::from_f32(libm::expf(v)).to_bits()
}

fn gelu_oracle(i: u16) -> u16 {
    let v = half::f16::from_bits(i).to_f32();
    let erf = libm::erff(v / libm::sqrtf(2.0));
    let g = libm::scalbnf(v * (erf + 1.0), -1);
    half::f16::from_f32(g).to_bits()
}

#[test]
fn exp_cache_matches_full_precision_exponential_for_all_patterns() {
    let device = CpuTensorDevice::new();
    let table = device.exp_cache();
    assert_eq!(table.len(), 65536);
    for i in 0..=65535u16 {
        assert_eq!(table[i as usize], exp_oracle(i), "pattern {:#06x}", i);
    }
}

#[test]
fn gelu_cache_matches_full_precision_gelu_for_all_patterns() {
    let device = CpuTensorDevice::new();
    let table = device.gelu_cache();
    assert_eq!(table.len(), 65536);
    for i in 0..=65535u16 {
        assert_eq!(table[i as usize], gelu_oracle(i), "pattern {:#06x}", i);
    }
}

#[test]
fn exp_cache_exact_entries() {
    let device = CpuTensorDevice::new();
    let table = device.exp_cache();
    // exp(0) == exp(-0) == 1
    assert_eq!(table[0x0000], 0x3C00);
    assert_eq!(table[0x8000], 0x3C00);
    // exp(-inf) == 0, exp(+inf) == +inf
    assert_eq!(table[0xFC00], 0x0000);
    assert_eq!(table[0x7C00], 0x7C00);
    // exp(1) rounds to 2.71875 in half precision
    assert_eq!(table[0x3C00], 0x4170);
}

#[test]
fn gelu_cache_exact_entries() {
    let device = CpuTensorDevice::new();
    let table = device.gelu_cache();
    // gelu(0) == 0 and gelu(-0) == -0
    assert_eq!(table[0x0000], 0x0000);
    assert_eq!(table[0x8000], 0x8000);
    // gelu(+inf) == +inf
    assert_eq!(table[0x7C00], 0x7C00);
    // a NaN input yields a defined NaN entry, not a panic
    let nan_entry = table[0x7E00];
    assert_eq!(nan_entry & 0x7C00, 0x7C00);
    assert_ne!(nan_entry & 0x03FF, 0);
}

#[test]
fn widening_matches_reference_for_all_patterns() {
    for i in 0..=65535u16 {
        assert_eq!(
            widen_half_bits(i),
            half::f16::from_bits(i).to_f32().to_bits(),
            "pattern {:#06x}",
            i
        );
    }
}

#[test]
fn narrowing_matches_reference_on_edge_patterns() {
    let cases: Vec<f32> = vec![
        0.0,
        -0.0,
        1.0,
        -1.0,
        65504.0,
        65519.9,
        65520.0,
        65535.0,
        1.0e9,
        -1.0e9,
        f32::INFINITY,
        f32::NEG_INFINITY,
        f32::NAN,
        f32::MIN_POSITIVE,
        2.980232e-8,
        5.960464e-8,
        5.9604645e-8,
        1.0e-7,
        6.097555e-5,
        6.103515e-5,
        6.1035156e-5,
        1.0009765625,
        1.0009766,
        0.33333334,
        3.1415927,
        2.7182817,
        -0.044715,
    ];
    for v in cases {
        let x = v.to_bits();
        assert_eq!(
            narrow_to_half_bits(x),
            half::f16::from_f32(v).to_bits(),
            "value {} bits {:#010x}",
            v,
            x
        );
    }
}

#[test]
fn narrowing_inverts_widening_on_numeric_patterns() {
    for i in 0..=65535u16 {
        if half::f16::from_bits(i).is_nan() {
            continue;
        }
        assert_eq!(narrow_to_half_bits(widen_half_bits(i)), i, "pattern {:#06x}", i);
    }
}
