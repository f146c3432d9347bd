use calc::error::CalcError;
use calc::operand::{parse_operand, Operand, NEGATIVE_INFINITY, NEGATIVE_ZERO, POSITIVE_ZERO};

fn convert(text: &str) -> Result<Operand, CalcError> {
    parse_operand(text.parse::<f64>().map(f64::to_bits))
}

fn value(operand: Operand) -> f64 {
    f64::from_bits(operand.to_bits())
}

fn samples() -> Vec<f64> {
    vec![
        0.0,
        -0.0,
        1.0,
        -1.0,
        5.2,
        -3.0,
        f64::from_bits(1),
        -f64::from_bits(1),
        f64::MIN_POSITIVE,
        -f64::MIN_POSITIVE,
        f64::MAX,
        f64::MIN,
        f64::INFINITY,
        f64::NEG_INFINITY,
        f64::NAN,
        -f64::NAN,
        f64::from_bits(0x7ff0_0000_0000_0001),
        f64::from_bits(0xfff0_0000_0000_0001),
        f64::from_bits(0xffff_ffff_ffff_ffff),
        f64::from_bits(0x7fff_ffff_ffff_ffff),
    ]
}

#[test]
fn test_parse_operand_valid() {
    assert_eq!(value(convert("5.2").unwrap()), 5.2);
    assert_eq!(value(convert("-3.0").unwrap()), -3.0);
}

#[test]
fn test_parse_operand_invalid() {
    assert!(convert("abc").is_err());
}

#[test]
fn malformed_text_is_an_operand_error() {
    for text in ["", "abc", "1.2.3", " 1", "1 ", "--1", "1e", "0x10", "1,5"] {
        match convert(text) {
            Err(CalcError::OperandParseError(message)) => {
                assert_eq!(message, "Failed to parse operand")
            }
            other => panic!("{:?} was read as {:?}", text, other),
        }
    }
}

#[test]
fn every_number_is_taken_as_it_is() {
    assert_eq!(value(convert("3").unwrap()), 3.0);
    assert_eq!(value(convert("+7").unwrap()), 7.0);
    assert_eq!(value(convert(".5").unwrap()), 0.5);
    assert_eq!(value(convert("5.").unwrap()), 5.0);
    assert_eq!(value(convert("2.5e-3").unwrap()), 0.0025);
    assert_eq!(value(convert("1E3").unwrap()), 1000.0);
    assert_eq!(value(convert("1e400").unwrap()), f64::INFINITY);
    assert_eq!(value(convert("-inf").unwrap()), f64::NEG_INFINITY);
    assert!(value(convert("NaN").unwrap()).is_nan());
    assert_eq!(convert("-0").unwrap().to_bits(), NEGATIVE_ZERO);
    assert_eq!(convert("0").unwrap().to_bits(), POSITIVE_ZERO);
}

#[test]
fn conversion_keeps_the_bit_pattern() {
    for sample in samples() {
        let operand = parse_operand(Ok(sample.to_bits())).unwrap();
        assert_eq!(operand.to_bits(), sample.to_bits());
        assert_eq!(operand, Operand::from_bits(sample.to_bits()));
        assert_eq!(operand.bits, sample.to_bits());
    }
}

#[test]
fn the_error_of_the_conversion_becomes_an_operand_error() {
    let error = "abc".parse::<f64>().unwrap_err();
    assert_eq!(
        CalcError::from(error),
        CalcError::OperandParseError(String::from("Failed to parse operand"))
    );
    let error = "".parse::<f64>().unwrap_err();
    assert_eq!(CalcError::from(error).message(), "Failed to parse operand");
}

#[test]
fn is_zero_is_equality_with_zero() {
    for sample in samples() {
        let operand = Operand::from_bits(sample.to_bits());
        assert_eq!(operand.is_zero(), sample == 0.0, "{:?}", sample);
    }
}

#[test]
fn is_below_zero_is_less_than_zero() {
    for sample in samples() {
        let operand = Operand::from_bits(sample.to_bits());
        assert_eq!(operand.is_below_zero(), sample < 0.0, "{:?}", sample);
    }
}

#[test]
fn the_named_bit_patterns_are_those_of_the_numbers() {
    assert_eq!(POSITIVE_ZERO, 0.0f64.to_bits());
    assert_eq!(NEGATIVE_ZERO, (-0.0f64).to_bits());
    assert_eq!(NEGATIVE_INFINITY, f64::NEG_INFINITY.to_bits());
}

#[test]
fn the_zeros_are_not_below_zero() {
    assert!(Operand::from_bits(POSITIVE_ZERO).is_zero());
    assert!(Operand::from_bits(NEGATIVE_ZERO).is_zero());
    assert!(!Operand::from_bits(POSITIVE_ZERO).is_below_zero());
    assert!(!Operand::from_bits(NEGATIVE_ZERO).is_below_zero());
    assert!(Operand::from_bits(NEGATIVE_ZERO + 1).is_below_zero());
    assert!(Operand::from_bits(NEGATIVE_INFINITY).is_below_zero());
    assert!(!Operand::from_bits(NEGATIVE_INFINITY + 1).is_below_zero());
}
