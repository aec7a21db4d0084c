use cubism_model::scalar::Scalar;

fn scalar(x: f64) -> Scalar {
    Scalar::from_bits(x.to_bits())
}

fn samples() -> Vec<f64> {
    vec![
        0.0,
        -0.0,
        1.0,
        -1.0,
        0.5,
        -0.5,
        1.5,
        2.0,
        -2.0,
        1e-310,
        -1e-310,
        f64::MIN_POSITIVE,
        f64::MAX,
        f64::MIN,
        f64::INFINITY,
        f64::NEG_INFINITY,
        f64::NAN,
        -f64::NAN,
        123456.789,
        -123456.789,
    ]
}

#[test]
fn precedes_orders_as_the_numbers_do() {
    for a in samples() {
        for b in samples() {
            assert_eq!(scalar(a).precedes(scalar(b)), a <= b, "{a} <= {b}");
        }
    }
}

#[test]
fn equals_compares_as_the_numbers_do() {
    for a in samples() {
        for b in samples() {
            assert_eq!(scalar(a).equals(scalar(b)), a == b, "{a} == {b}");
        }
    }
}

#[test]
fn both_zeros_are_the_same_number() {
    assert!(scalar(0.0).equals(scalar(-0.0)));
    assert!(scalar(-0.0).precedes(scalar(0.0)));
    assert!(scalar(0.0).precedes(scalar(-0.0)));
}

#[test]
fn what_is_no_number_compares_with_nothing() {
    let nan = scalar(f64::NAN);
    assert!(nan.not_a_number());
    assert!(!nan.precedes(nan));
    assert!(!nan.equals(nan));
    assert!(!nan.precedes(scalar(1.0)));
    assert!(!scalar(1.0).precedes(nan));
    assert!(!scalar(f64::INFINITY).not_a_number());
}

#[test]
fn bits_come_back_unchanged() {
    assert_eq!(Scalar::from_bits(0x3ff8_0000_0000_0000).to_bits(), 0x3ff8_0000_0000_0000);
    assert_eq!(scalar(1.5).to_bits(), 0x3ff8_0000_0000_0000);
    assert_eq!(f64::from_bits(scalar(-2.25).to_bits()), -2.25);
}
