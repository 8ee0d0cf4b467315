use torus_trooper::options::{parse_brightness, parse_luminosity, OptionError};

#[test]
fn brightness_in_range() {
    assert_eq!(parse_brightness("100"), Ok(100));
    assert_eq!(parse_brightness("0"), Ok(0));
    assert_eq!(parse_brightness("+42"), Ok(42));
}

#[test]
fn brightness_out_of_range() {
    assert_eq!(parse_brightness("101"), Err(OptionError::BrightnessRange));
    assert_eq!(
        OptionError::BrightnessRange.message(),
        "brightness must if in the range [0-100]"
    );
}

#[test]
fn luminosity_errors() {
    assert_eq!(parse_luminosity("250"), Err(OptionError::LuminosityRange));
    assert_eq!(parse_luminosity("abc"), Err(OptionError::NotANumber));
    assert_eq!(parse_luminosity(""), Err(OptionError::NotANumber));
    assert_eq!(parse_luminosity("-1"), Err(OptionError::NotANumber));
    assert_eq!(parse_luminosity("99999999999999999999999"), Err(OptionError::NotANumber));
    assert_eq!(parse_luminosity("50"), Ok(50));
}
