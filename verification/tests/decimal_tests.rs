use freqtrade_rs::decimal::Decimal;

fn dec(text: &str) -> Decimal {
    Decimal::parse(text).unwrap()
}

#[test]
fn decimal_new_keeps_mantissa_and_scale() {
    let d = Decimal::new(3141, 3).unwrap();
    assert_eq!(d.mantissa(), 3141);
    assert_eq!(d.scale(), 3);
    assert_eq!(d.to_text(), "3.141");
}

#[test]
fn decimal_new_rejects_a_scale_above_28() {
    assert!(Decimal::new(1, 29).is_none());
    assert!(Decimal::new(1, 28).is_some());
}

#[test]
fn decimal_new_rejects_a_mantissa_above_96_bits() {
    let max: i128 = 79_228_162_514_264_337_593_543_950_335;
    assert!(Decimal::new(max, 0).is_some());
    assert!(Decimal::new(max + 1, 0).is_none());
    assert!(Decimal::new(-max, 0).is_some());
    assert!(Decimal::new(-max - 1, 0).is_none());
}

#[test]
fn decimal_addition_is_that_of_the_decimal_crate() {
    let sum = dec("1.25").checked_add(dec("2.5")).unwrap();
    assert_eq!(sum, dec("3.75"));
    assert_eq!(sum.to_text(), "3.75");
}

#[test]
fn decimal_subtraction_is_that_of_the_decimal_crate() {
    let difference = dec("110").checked_sub(dec("100")).unwrap();
    assert_eq!(difference, dec("10"));
    assert_ne!(difference, dec("110"));
}

#[test]
fn decimal_multiplication_is_that_of_the_decimal_crate() {
    let product = dec("2.2").checked_mul(dec("30")).unwrap();
    assert_eq!(product, dec("66"));
    assert_eq!(product.to_text(), "66.0");
}

#[test]
fn decimal_division_is_that_of_the_decimal_crate() {
    let quotient = dec("6").checked_div(dec("60")).unwrap();
    assert_eq!(quotient, dec("0.1"));
    assert!(dec("1").checked_div(Decimal::zero()).is_none());
}

#[test]
fn decimal_overflow_gives_none() {
    let max = Decimal::new(79_228_162_514_264_337_593_543_950_335, 0).unwrap();
    assert!(max.checked_add(Decimal::from_i64(1)).is_none());
    assert!(max.checked_mul(Decimal::from_i64(2)).is_none());
}

#[test]
fn decimal_order_is_numeric_across_scales() {
    assert!(dec("1.0").lt(&dec("1.05")));
    assert!(!dec("1.0").lt(&dec("1.00")));
    assert!(dec("1.0").same_number(&dec("1.00")));
    assert!(dec("-0.5").lt(&dec("-0.01")));
    assert!(dec("2").gt(&dec("1.999")));
    assert!(dec("2").ge(&dec("2.0")));
    assert!(dec("2").le(&dec("2.0")));
    assert_eq!(dec("1.0"), dec("1.00"));
}

#[test]
fn decimal_max_and_min_pick_by_number() {
    assert_eq!(dec("1").max(dec("2")), dec("2"));
    assert_eq!(dec("1").min(dec("2")), dec("1"));
    assert_eq!(dec("-3").max(Decimal::zero()), Decimal::zero());
}

#[test]
fn decimal_sign_tests() {
    assert!(dec("-0.001").is_negative());
    assert!(dec("0.001").is_positive());
    assert!(dec("0.000").is_zero());
    assert!(!dec("0.000").is_negative());
    assert_eq!(dec("-3.141").abs().to_text(), "3.141");
    assert_eq!(dec("3.141").neg().to_text(), "-3.141");
}

#[test]
fn decimal_text_reads_back_with_its_precision() {
    for text in ["0", "0.00", "2.0", "-12.3450", "79228162514264337593543950335", "0.0000000000000000000000000001"] {
        let d = dec(text);
        let shown = d.to_text();
        assert_eq!(shown, text);
        let back = Decimal::parse(&shown).unwrap();
        assert_eq!(back.mantissa(), d.mantissa());
        assert_eq!(back.scale(), d.scale());
    }
}

#[test]
fn decimal_parse_rejects_what_is_no_number() {
    assert!(Decimal::parse("abc").is_none());
    assert!(Decimal::parse("").is_none());
    assert!(Decimal::parse("1.2.3").is_none());
}

#[test]
fn decimal_from_i64_has_scale_zero() {
    let d = Decimal::from_i64(-42);
    assert_eq!(d.mantissa(), -42);
    assert_eq!(d.scale(), 0);
}
