use smart_account::bls::NEG_G1_GENERATOR;
use smart_account::encoding::{
    be_order, fp_is_reduced, g1_is_canonical, g2_is_canonical, Order, FP_MODULUS,
};

#[test]
fn order_of_big_endian_numbers() {
    assert_eq!(be_order(&[0, 0, 1], 0, &[0, 0, 2]), Order::Less);
    assert_eq!(be_order(&[1, 0, 0], 0, &[0, 255, 255]), Order::Greater);
    assert_eq!(be_order(&[7, 8, 9], 0, &[7, 8, 9]), Order::Equal);
    assert_eq!(be_order(&[9, 9, 0, 5, 9], 2, &[0, 6]), Order::Less);
    assert_eq!(be_order(&[9, 9, 0, 7, 9], 2, &[0, 6]), Order::Greater);
    assert_eq!(be_order(&[1, 2, 3], 3, &[]), Order::Equal);
}

#[test]
fn modulus_is_not_reduced() {
    assert!(!fp_is_reduced(&FP_MODULUS, 0));
    let mut below = FP_MODULUS;
    below[47] -= 1;
    assert!(fp_is_reduced(&below, 0));
    let mut above = FP_MODULUS;
    above[47] += 1;
    assert!(!fp_is_reduced(&above, 0));
    assert!(fp_is_reduced(&[0u8; 48], 0));
    assert!(!fp_is_reduced(&[0xffu8; 48], 0));
    let mut high_byte_smaller = [0xffu8; 48];
    high_byte_smaller[0] = 0x19;
    assert!(fp_is_reduced(&high_byte_smaller, 0));
}

#[test]
fn reduced_field_at_an_offset() {
    let mut two = [0u8; 96];
    two[48..].copy_from_slice(&FP_MODULUS);
    assert!(fp_is_reduced(&two, 0));
    assert!(!fp_is_reduced(&two, 48));
}

#[test]
fn canonical_g1_encodings() {
    assert!(g1_is_canonical(&NEG_G1_GENERATOR));
    assert!(g1_is_canonical(&[0u8; 96]));
    let mut infinity = [0u8; 96];
    infinity[0] = 0x40;
    assert!(g1_is_canonical(&infinity));
    let mut bad_infinity = infinity;
    bad_infinity[95] = 1;
    assert!(!g1_is_canonical(&bad_infinity));
    let mut flagged_infinity = infinity;
    flagged_infinity[0] = 0x41;
    assert!(!g1_is_canonical(&flagged_infinity));
    let mut compressed = NEG_G1_GENERATOR;
    compressed[0] |= 0x80;
    assert!(!g1_is_canonical(&compressed));
    let mut sorted = NEG_G1_GENERATOR;
    sorted[0] |= 0x20;
    assert!(!g1_is_canonical(&sorted));
    let mut x_is_modulus = NEG_G1_GENERATOR;
    x_is_modulus[..48].copy_from_slice(&FP_MODULUS);
    assert!(!g1_is_canonical(&x_is_modulus));
    let mut y_is_modulus = NEG_G1_GENERATOR;
    y_is_modulus[48..].copy_from_slice(&FP_MODULUS);
    assert!(!g1_is_canonical(&y_is_modulus));
}

#[test]
fn canonical_g2_encodings() {
    assert!(g2_is_canonical(&[0u8; 192]));
    let mut infinity = [0u8; 192];
    infinity[0] = 0x40;
    assert!(g2_is_canonical(&infinity));
    let mut bad_infinity = infinity;
    bad_infinity[100] = 1;
    assert!(!g2_is_canonical(&bad_infinity));
    for field in 0..4 {
        let mut p = [0u8; 192];
        p[field * 48..(field + 1) * 48].copy_from_slice(&FP_MODULUS);
        assert!(!g2_is_canonical(&p));
        p[field * 48 + 47] -= 1;
        assert!(g2_is_canonical(&p));
    }
    let mut flagged = [0u8; 192];
    flagged[0] = 0x80;
    assert!(!g2_is_canonical(&flagged));
}
