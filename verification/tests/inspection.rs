use shoddy_sha::inspect::Bytefield;

#[test]
fn test_decompose_one() {
    let (sign, exponent, mantissa) = Bytefield(1.0f64.to_bits()).decompose();
    assert_eq!(sign, 0);
    assert_eq!(exponent, 1023);
    assert_eq!(mantissa, 0);
}

#[test]
fn test_decompose_negative_half() {
    let (sign, exponent, mantissa) = Bytefield((-0.5f64).to_bits()).decompose();
    assert_eq!(sign, 1);
    assert_eq!(exponent, 1022);
    assert_eq!(mantissa, 0);
}

#[test]
fn test_decompose_all_field_bits() {
    let (sign, exponent, mantissa) = Bytefield(u64::MAX).decompose();
    assert_eq!(sign, 0x1);
    assert_eq!(exponent, 0x7ff);
    assert_eq!(mantissa, 0xf_ffff_ffff_ffff);
}
