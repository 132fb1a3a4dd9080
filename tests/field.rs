use zk_artifacts::field::to_fq;

const MODULUS: [u64; 4] = [
    0xffff_ffff_0000_0001,
    0x53bd_a402_fffe_5bfe,
    0x3339_d808_09a1_d805,
    0x73ed_a753_299d_7d48,
];

#[test]
fn to_fq_of_zero_and_positive() {
    assert_eq!(to_fq(0).limbs, [0, 0, 0, 0]);
    assert_eq!(to_fq(30).limbs, [30, 0, 0, 0]);
    assert_eq!(to_fq(i64::MAX).limbs, [i64::MAX as u64, 0, 0, 0]);
}

#[test]
fn to_fq_of_negative_is_modulus_minus_magnitude() {
    let mut expected = MODULUS;
    expected[0] -= 1;
    assert_eq!(to_fq(-1).limbs, expected);
    let mut expected = MODULUS;
    expected[0] -= 1u64 << 63;
    assert_eq!(to_fq(i64::MIN).limbs, expected);
}

#[test]
fn to_fq_negation_sums_to_zero() {
    for x in [1i64, 7, 30, -5, 1 << 40, i64::MAX] {
        let s = to_fq(x).add(&to_fq(-x));
        assert_eq!(s.limbs, [0, 0, 0, 0]);
    }
}

#[test]
fn field_mul_and_equality() {
    let three = to_fq(3);
    let nine = three.mul(&three);
    assert_eq!(nine.limbs, [9, 0, 0, 0]);
    let minus_one = to_fq(-1);
    assert_eq!(minus_one.mul(&minus_one).limbs, [1, 0, 0, 0]);
    assert!(nine.equals(&to_fq(9)));
    assert!(!nine.equals(&to_fq(-9)));
    assert!(three.is_canonical());
    let mut m = zk_artifacts::field::FieldElement { limbs: MODULUS };
    assert!(!m.is_canonical());
    m.limbs[0] -= 1;
    assert!(m.is_canonical());
}
