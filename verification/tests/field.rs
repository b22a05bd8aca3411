use starks_vm::math::field;

const M: u128 = 340282366920938463463374557953744961537;

#[test]
fn modulus_and_identities() {
    assert_eq!(M, field::M);
    assert_eq!(u128::MAX - 45 * (1u128 << 40) + 2, field::M);
    assert_eq!(0, field::ZERO);
    assert_eq!(1, field::ONE);
}

#[test]
fn add_small_values() {
    assert_eq!(5, field::add(2, 3));
    assert_eq!(7, field::add(7, field::ZERO));
    assert_eq!(7, field::add(field::ZERO, 7));
}

#[test]
fn add_wraps_at_the_modulus() {
    assert_eq!(0, field::add(M - 1, 1));
    assert_eq!(M - 2, field::add(M - 1, M - 1));
    assert_eq!(1, field::add(M - 1, 2));
    assert_eq!(M - 1, field::add(M / 2, M / 2));
}

#[test]
fn add_reduces_values_above_the_modulus() {
    assert_eq!(0, field::add(M, 0));
    assert_eq!(5, field::add(M + 2, M + 3));
    assert_eq!(98956046499836, field::add(u128::MAX, u128::MAX));
}

#[test]
fn mul_small_values() {
    assert_eq!(6, field::mul(2, 3));
    assert_eq!(0, field::mul(12345, 0));
    assert_eq!(12345, field::mul(12345, field::ONE));
}

#[test]
fn mul_exact_values() {
    assert_eq!(1, field::mul(M - 1, M - 1));
    assert_eq!(49478023249919, field::mul(1 << 127, 2));
    assert_eq!(M - 2, field::mul(M - 1, 2));
    assert_eq!(
        212718038576415945356728884580317960652,
        field::mul(
            123456789012345678901234567890123456789,
            98765432109876543210987654321098765432
        )
    );
    assert_eq!(2448074784719426166687006724, field::mul(u128::MAX, u128::MAX));
}

#[test]
fn mul_agrees_with_repeated_addition() {
    let x: u128 = 300000000000000000000000000000000000007;
    let mut sum = 0u128;
    for k in 0..50u128 {
        assert_eq!(sum, field::mul(x, k));
        assert_eq!(sum, field::mul(k, x));
        sum = field::add(sum, x);
    }
}

#[test]
fn exp_exact_values() {
    assert_eq!(27, field::exp(3, 3));
    assert_eq!(1, field::exp(5, 0));
    assert_eq!(5, field::exp(5, 1));
    assert_eq!(0, field::exp(0, 5));
    assert_eq!(1, field::exp(0, 0));
    assert_eq!(49478023249919, field::exp(2, 128));
    assert_eq!(1, field::exp(7, M - 1));
    assert_eq!(
        125756300931327654870295418770068356597,
        field::exp(u128::MAX, u128::MAX)
    );
}

#[test]
fn inverse_exponent_undoes_the_cube() {
    let inv_alpha: u128 = 226854911280625642308916371969163307691;
    assert_eq!(
        232208754947474119609224276871282915323,
        field::exp(5, inv_alpha)
    );
    for x in [0u128, 1, 2, 5, 1 << 64, M - 1, 123456789012345678901234567890] {
        assert_eq!(x, field::exp(field::exp(x, 3), inv_alpha));
        assert_eq!(x, field::exp(field::exp(x, inv_alpha), 3));
    }
}
