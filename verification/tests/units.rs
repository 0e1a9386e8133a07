use spi_sensors::units::{standard_gravity, Ratio};

#[test]
fn whole_numbers_are_over_one() {
    assert_eq!(Ratio::whole(-7), Ratio { numerator: -7, denominator: 1 });
    assert_eq!(Ratio::whole(i16::MIN), Ratio { numerator: -32768, denominator: 1 });
}

#[test]
fn times_multiplies_across() {
    let a = Ratio { numerator: 3, denominator: 4 };
    let b = Ratio { numerator: -5, denominator: 7 };
    assert_eq!(a.times(&b), Ratio { numerator: -15, denominator: 28 });
}

#[test]
fn over_multiplies_crosswise() {
    let a = Ratio { numerator: 3, denominator: 4 };
    let b = Ratio { numerator: 5, denominator: 7 };
    assert_eq!(a.over(&b), Ratio { numerator: 21, denominator: 20 });
}

#[test]
fn the_largest_operands_do_not_overflow() {
    let a = Ratio { numerator: -0x7fff_ffff, denominator: 0x7fff_ffff };
    let b = Ratio { numerator: 0x7fff_ffff, denominator: 0x7fff_ffff };
    let product = a.times(&b);
    assert_eq!(product.numerator, -0x3fff_ffff_0000_0001);
    assert_eq!(product.denominator, 0x3fff_ffff_0000_0001);
}

#[test]
fn standard_gravity_is_9_81() {
    let g = standard_gravity();
    assert_eq!(g, Ratio { numerator: 981, denominator: 100 });
    assert!((g.numerator as f64 / g.denominator as f64 - 9.81).abs() < 1e-12);
}
