use fraction::{GenericFraction, Sign};
use number_general::dispatch::{bridge, fraction_values, Bridge, Operand, Outcome, Power, Task};
use number_general::rational::{Fraction, Parts};
use number_general::Number;
use standardform::StandardForm;

fn decimal(value: f64) -> Number {
    Number::Decimal(value.to_bits())
}

fn theirs(fr: Fraction) -> GenericFraction<u32> {
    match fr.parts() {
        Parts::Rational { negative, numer, denom } => GenericFraction::new_raw_signed(
            if negative { Sign::Minus } else { Sign::Plus },
            numer,
            denom,
        ),
        Parts::Infinity { negative } => {
            GenericFraction::Infinity(if negative { Sign::Minus } else { Sign::Plus })
        }
        Parts::NaN => GenericFraction::NaN,
    }
}

fn ours(fr: GenericFraction<u32>) -> Fraction {
    match fr {
        GenericFraction::Rational(sign, ratio) => {
            if sign.is_negative() {
                Fraction::new_neg(*ratio.numer(), *ratio.denom())
            } else {
                Fraction::new(*ratio.numer(), *ratio.denom())
            }
        }
        GenericFraction::Infinity(sign) => {
            if sign.is_negative() {
                Fraction::new_neg(1, 0)
            } else {
                Fraction::new(1, 0)
            }
        }
        GenericFraction::NaN => Fraction::new(0, 0),
    }
}

fn across(bridge: Bridge) -> StandardForm {
    let mantissa = bridge.numer as f64;
    StandardForm::new(if bridge.negative { -mantissa } else { mantissa }, bridge.exponent)
}

fn add(outcome: Outcome) -> Number {
    match outcome {
        Outcome::Ready(number) => number,
        Outcome::Pending(Task::Doubles { left, right }) => {
            decimal(f64::from_bits(left) + f64::from_bits(right))
        }
        Outcome::Pending(Task::StandardFormDouble { left, right }) => {
            Number::StandardForm(left + f64::from_bits(right))
        }
        Outcome::Pending(Task::FractionDouble { left, right }) => {
            Number::Fraction(ours(theirs(left) + f64::from_bits(right)))
        }
        Outcome::Pending(Task::StandardForms { left, right }) => Number::StandardForm(left + right),
        Outcome::Pending(Task::Fractions { left, right }) => {
            Number::Fraction(ours(theirs(left) + theirs(right)))
        }
        Outcome::Pending(Task::StandardFormBridge { left, right }) => {
            Number::StandardForm(left + across(right))
        }
        Outcome::Pending(Task::BridgeStandardForm { left, right }) => {
            Number::StandardForm(across(left) + right)
        }
    }
}

fn of_doubles(outcome: Outcome, arithmetic: fn(f64, f64) -> f64) -> Number {
    match outcome {
        Outcome::Pending(Task::Doubles { left, right }) => {
            decimal(arithmetic(f64::from_bits(left), f64::from_bits(right)))
        }
        other => panic!("{:?}", other),
    }
}

#[test]
fn test_addition() {
    let num1 = decimal(2.5);
    let num2 = decimal(3.5);
    let result = of_doubles(num1.dispatch(num2), |a, b| a + b);
    assert_eq!(result, decimal(6.0));
}

#[test]
fn test_subtraction() {
    let num1 = decimal(5.5);
    let num2 = decimal(3.5);
    let result = of_doubles(num1.dispatch(num2), |a, b| a - b);
    assert_eq!(result, decimal(2.0));
}

#[test]
fn test_multiplication() {
    let num1 = decimal(2.5);
    let num2 = decimal(3.0);
    let result = of_doubles(num1.dispatch(num2), |a, b| a * b);
    assert_eq!(result, decimal(7.5));
}

#[test]
fn test_division() {
    let num1 = decimal(10.0);
    let num2 = decimal(2.0);
    let result = of_doubles(num1.dispatch(num2), |a, b| a / b);
    assert_eq!(result, decimal(5.0));
}

#[test]
fn test_addition_assignment() {
    let mut num = decimal(3.0);
    let num2 = decimal(2.0);
    num = of_doubles(num.clone().dispatch(num2), |a, b| a + b);
    assert_eq!(num, decimal(5.0));
}

#[test]
fn test_subtraction_assignment() {
    let mut num = decimal(5.0);
    let num2 = decimal(3.0);
    num = of_doubles(num.clone().dispatch(num2), |a, b| a - b);
    assert_eq!(num, decimal(2.0));
}

#[test]
fn test_multiplication_assignment() {
    let mut num = decimal(2.5);
    let num2 = decimal(3.0);
    num = of_doubles(num.clone().dispatch(num2), |a, b| a * b);
    assert_eq!(num, decimal(7.5));
}

#[test]
fn test_division_assignment() {
    let mut num = decimal(10.0);
    let num2 = decimal(2.0);
    num = of_doubles(num.clone().dispatch(num2), |a, b| a / b);
    assert_eq!(num, decimal(5.0));
}

#[test]
fn remainder_of_doubles() {
    let result = of_doubles(decimal(7.5).dispatch(decimal(2.0)), |a, b| a % b);
    assert_eq!(result, decimal(1.5));
}

#[test]
fn doubles_meet_in_their_order() {
    assert_eq!(
        decimal(1.0).dispatch(decimal(2.0)),
        Outcome::Pending(Task::Doubles { left: 1f64.to_bits(), right: 2f64.to_bits() })
    );
    assert_eq!(
        decimal(f64::NAN).dispatch(decimal(-0.0)),
        Outcome::Pending(Task::Doubles { left: f64::NAN.to_bits(), right: (-0f64).to_bits() })
    );
}

#[test]
fn a_double_gives_way_to_standard_form() {
    let sf = StandardForm::new(2.0, 3);
    let expected = Outcome::Pending(Task::StandardFormDouble {
        left: sf.clone(),
        right: 0.5f64.to_bits(),
    });
    assert_eq!(Number::StandardForm(sf.clone()).dispatch(decimal(0.5)), expected);
    assert_eq!(decimal(0.5).dispatch(Number::StandardForm(sf)), expected);
}

#[test]
fn a_double_gives_way_to_a_fraction() {
    let fr = Fraction::new(1, 3);
    let expected = Outcome::Pending(Task::FractionDouble { left: fr, right: 0.5f64.to_bits() });
    assert_eq!(Number::Fraction(fr).dispatch(decimal(0.5)), expected);
    assert_eq!(decimal(0.5).dispatch(Number::Fraction(fr)), expected);
}

#[test]
fn one_representation_meets_in_itself() {
    let (a, b) = (StandardForm::new(1.2, 3), StandardForm::new(3.4, 2));
    assert_eq!(
        Number::StandardForm(a.clone()).dispatch(Number::StandardForm(b.clone())),
        Outcome::Pending(Task::StandardForms { left: a, right: b })
    );
    let (a, b) = (Fraction::new(1, 2), Fraction::new_neg(2, 8));
    assert_eq!(
        Number::Fraction(a).dispatch(Number::Fraction(b)),
        Outcome::Pending(Task::Fractions { left: a, right: b })
    );
}

#[test]
fn standard_form_and_fraction_meet_across_the_bridge() {
    let sf = StandardForm::new(2.0, 1);
    let fr = Fraction::new_neg(3, 8);
    let over = Bridge { negative: true, numer: 3, exponent: -3 };
    assert_eq!(
        Number::StandardForm(sf.clone()).dispatch(Number::Fraction(fr)),
        Outcome::Pending(Task::StandardFormBridge { left: sf.clone(), right: over })
    );
    assert_eq!(
        Number::Fraction(fr).dispatch(Number::StandardForm(sf.clone())),
        Outcome::Pending(Task::BridgeStandardForm { left: over, right: sf })
    );
}

#[test]
fn a_fraction_that_is_no_number_is_the_result() {
    let sf = StandardForm::new(2.0, 1);
    for fr in [Fraction::new(1, 0), Fraction::new_neg(1, 0), Fraction::new(0, 0)] {
        assert_eq!(
            Number::StandardForm(sf.clone()).dispatch(Number::Fraction(fr)),
            Outcome::Ready(Number::Fraction(fr))
        );
        assert_eq!(
            Number::Fraction(fr).dispatch(Number::StandardForm(sf.clone())),
            Outcome::Ready(Number::Fraction(fr))
        );
    }
}

#[test]
fn bridge_counts_trailing_zero_bits() {
    assert_eq!(bridge(false, 3, 1), Bridge { negative: false, numer: 3, exponent: 0 });
    assert_eq!(bridge(false, 3, 2), Bridge { negative: false, numer: 3, exponent: -1 });
    assert_eq!(bridge(true, 7, 8), Bridge { negative: true, numer: 7, exponent: -3 });
    assert_eq!(bridge(false, 7, 12), Bridge { negative: false, numer: 7, exponent: -2 });
    assert_eq!(bridge(false, 1, 3), Bridge { negative: false, numer: 1, exponent: 0 });
    assert_eq!(bridge(false, 1, 0x8000_0000), Bridge { negative: false, numer: 1, exponent: -31 });
    assert_eq!(bridge(false, 1, 0), Bridge { negative: false, numer: 1, exponent: -32 });
}

#[test]
fn bridge_is_the_fraction_over_a_power_of_ten() {
    assert_eq!(bridge(false, 3, 10), Bridge { negative: false, numer: 3, exponent: -1 });
    assert_eq!(bridge(false, 3, 100), Bridge { negative: false, numer: 3, exponent: -2 });
    assert_eq!(bridge(true, 7, 1000), Bridge { negative: true, numer: 7, exponent: -3 });
    assert_eq!(bridge(false, 1, 1_000_000_000), Bridge { negative: false, numer: 1, exponent: -9 });
    let sum = add(Number::StandardForm(StandardForm::new(1.0, 0)).dispatch(Number::Fraction(Fraction::new(3, 10))));
    assert_eq!(sum, Number::StandardForm(StandardForm::new(1.3, 0)));
}

#[test]
fn bridge_is_another_number_elsewhere() {
    let sum = add(Number::StandardForm(StandardForm::new(1.0, 0)).dispatch(Number::Fraction(Fraction::new(1, 2))));
    assert_eq!(sum, Number::StandardForm(StandardForm::new(1.0, 0) + StandardForm::new(1.0, -1)));
    let sum = add(Number::StandardForm(StandardForm::new(1.0, 0)).dispatch(Number::Fraction(Fraction::new(1, 3))));
    assert_eq!(sum, Number::StandardForm(StandardForm::new(2.0, 0)));
}

#[test]
fn mixed_sums() {
    let sum = add(Number::Fraction(Fraction::new(1, 2)).dispatch(Number::Fraction(Fraction::new(1, 3))));
    assert_eq!(sum, Number::Fraction(Fraction::new(5, 6)));
    let sum = add(decimal(0.5).dispatch(Number::Fraction(Fraction::new(1, 4))));
    assert_eq!(sum, Number::Fraction(Fraction::new(3, 4)));
    let sum = add(Number::StandardForm(StandardForm::new(1.0, 1)).dispatch(decimal(5.0)));
    assert_eq!(sum, Number::StandardForm(StandardForm::new(1.5, 1)));
}

#[test]
fn fraction_values_of_a_rational() {
    assert_eq!(
        fraction_values(Fraction::new_neg(6, 8)),
        Ok(Operand::Ratio { negative: true, numer: 3, denom: 4 })
    );
}

#[test]
fn fraction_values_of_what_is_no_number() {
    for fr in [Fraction::new(1, 0), Fraction::new_neg(1, 0), Fraction::new(0, 0)] {
        assert_eq!(fraction_values(fr), Err(Number::Fraction(fr)));
    }
}

#[test]
fn power_is_a_power_of_doubles() {
    let sf = StandardForm::new(2.0, 1);
    let fr = Fraction::new(1, 2);
    assert_eq!(
        decimal(2.0).pow(decimal(3.0)),
        Power::Pending {
            base: Operand::Double(2f64.to_bits()),
            exponent: Operand::Double(3f64.to_bits())
        }
    );
    assert_eq!(
        Number::StandardForm(sf.clone()).pow(Number::Fraction(fr)),
        Power::Pending {
            base: Operand::StandardForm(sf.clone()),
            exponent: Operand::Ratio { negative: false, numer: 1, denom: 2 }
        }
    );
    assert_eq!(
        Number::Fraction(fr).pow(Number::StandardForm(sf.clone())),
        Power::Pending {
            base: Operand::Ratio { negative: false, numer: 1, denom: 2 },
            exponent: Operand::StandardForm(sf)
        }
    );
}

#[test]
fn power_of_what_is_no_number() {
    let infinite = Fraction::new(1, 0);
    let nothing = Fraction::new(0, 0);
    assert_eq!(decimal(2.0).pow(Number::Fraction(infinite)), Power::Ready(Number::Fraction(infinite)));
    assert_eq!(Number::Fraction(nothing).pow(decimal(2.0)), Power::Ready(Number::Fraction(nothing)));
    assert_eq!(
        Number::Fraction(nothing).pow(Number::Fraction(infinite)),
        Power::Ready(Number::Fraction(nothing))
    );
    assert_eq!(
        Number::Fraction(Fraction::new(1, 2)).pow(Number::Fraction(infinite)),
        Power::Ready(Number::Fraction(infinite))
    );
}

#[test]
fn positive_difference_is_zero_at_or_below() {
    assert_eq!(decimal(1.0).abs_sub(decimal(2.0)), Outcome::Ready(decimal(0.0)));
    assert_eq!(decimal(2.0).abs_sub(decimal(2.0)), Outcome::Ready(decimal(0.0)));
    assert_eq!(
        Number::Fraction(Fraction::new(1, 3)).abs_sub(Number::Fraction(Fraction::new(1, 2))),
        Outcome::Ready(decimal(0.0))
    );
}

#[test]
fn positive_difference_is_the_subtraction_above() {
    assert_eq!(
        decimal(3.0).abs_sub(decimal(2.0)),
        Outcome::Pending(Task::Doubles { left: 3f64.to_bits(), right: 2f64.to_bits() })
    );
    assert_eq!(
        decimal(f64::NAN).abs_sub(decimal(2.0)),
        Outcome::Pending(Task::Doubles { left: f64::NAN.to_bits(), right: 2f64.to_bits() })
    );
    let fr = Fraction::new(1, 2);
    assert_eq!(
        decimal(0.0).abs_sub(Number::Fraction(fr)),
        Outcome::Pending(Task::FractionDouble { left: fr, right: 0f64.to_bits() })
    );
}
