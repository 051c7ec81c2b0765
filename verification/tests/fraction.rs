use nebulizer::fraction::Fraction;

#[test]
fn fraction_rejects_zero_denominator() {
    assert!(Fraction::new(1, 0).is_none());
    assert!(Fraction::new(0, 0).is_none());
}

#[test]
fn fraction_rejects_values_above_one() {
    assert!(Fraction::new(3, 2).is_none());
    assert!(Fraction::new(2, 2).is_some());
}

#[test]
fn fraction_complement_is_one_minus() {
    let f = Fraction::new(3, 10).unwrap().complement();
    assert_eq!(f.numerator(), 7);
    assert_eq!(f.denominator(), 10);
}

#[test]
fn fraction_constants() {
    assert_eq!((Fraction::zero().numerator(), Fraction::zero().denominator()), (0, 1));
    assert_eq!((Fraction::one().numerator(), Fraction::one().denominator()), (1, 1));
    assert_eq!((Fraction::half().numerator(), Fraction::half().denominator()), (1, 2));
}
