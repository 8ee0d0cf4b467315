use vstd::prelude::*;

verus! {

/// The largest brightness or luminosity, in percent.
pub const MAX_PERCENT: usize = 100;

/// Whether every character of `s` is an ASCII digit.
pub open spec fn all_digits(s: Seq<char>) -> bool {
    forall|i: int| 0 <= i < s.len() ==> '0' <= #[trigger] s[i] <= '9'
}

/// The number that a string of decimal digits writes.
pub open spec fn digits_value(s: Seq<char>) -> int
    decreases s.len(),
{
    if s.len() == 0 {
        0
    } else {
        digits_value(s.drop_last()) * 10 + (s.last() as int - '0' as int)
    }
}

/// The value of `s` read as an unsigned decimal: an optional `+` followed by at
/// least one digit and nothing else, with a value that fits a `usize`.
pub open spec fn decimal_usize(s: Seq<char>) -> Option<usize> {
    let body = if s.len() > 0 && s[0] == '+' {
        s.drop_first()
    } else {
        s
    };
    if body.len() > 0 && all_digits(body) && digits_value(body) <= usize::MAX {
        Some(digits_value(body) as usize)
    } else {
        None
    }
}

/// Reads an unsigned decimal (`<usize as FromStr>::from_str`): as its documentation
/// states, an optional `+` sign followed by digits only, whose value fits the type.
#[verifier::external_body]
fn parse_usize(s: &str) -> (r: Option<usize>)
    ensures
        r == decimal_usize(s@),
{
    match <usize as std::str::FromStr>::from_str(s) {
        Ok(v) => Some(v),
        Err(_) => None,
    }
}

/// Why a command-line percentage was refused.
#[derive(Debug, Clone, Copy, PartialEq, Eq, Structural)]
pub enum OptionError {
    /// The text is not an unsigned decimal.
    NotANumber,
    /// The brightness lies past 100.
    BrightnessRange,
    /// The luminosity lies past 100.
    LuminosityRange,
}

/// The message shown for a refused option.
pub open spec fn option_error_text(e: OptionError) -> Seq<char> {
    match e {
        OptionError::NotANumber => "not an unsigned decimal number"@,
        OptionError::BrightnessRange => "brightness must if in the range [0-100]"@,
        OptionError::LuminosityRange => "luminosity must if in the range [0-100]"@,
    }
}

impl OptionError {
    /// The message shown for the error.
    pub fn message(&self) -> (r: &'static str)
        ensures
            r@ == option_error_text(*self),
    {
        match self {
            OptionError::NotANumber => "not an unsigned decimal number",
            OptionError::BrightnessRange => "brightness must if in the range [0-100]",
            OptionError::LuminosityRange => "luminosity must if in the range [0-100]",
        }
    }
}

/// Reads the `--brightness` option: a percentage from 0 to 100.
pub fn parse_brightness(s: &str) -> (r: Result<usize, OptionError>)
    ensures
        r == match decimal_usize(s@) {
            None => Err(OptionError::NotANumber),
            Some(v) => if v > MAX_PERCENT {
                Err(OptionError::BrightnessRange)
            } else {
                Ok(v)
            },
        },
{
    match parse_usize(s) {
        None => Err(OptionError::NotANumber),
        Some(v) => if v > MAX_PERCENT {
            Err(OptionError::BrightnessRange)
        } else {
            Ok(v)
        },
    }
}

/// Reads the `--luminosity` option: a percentage from 0 to 100.
pub fn parse_luminosity(s: &str) -> (r: Result<usize, OptionError>)
    ensures
        r == match decimal_usize(s@) {
            None => Err(OptionError::NotANumber),
            Some(v) => if v > MAX_PERCENT {
                Err(OptionError::LuminosityRange)
            } else {
                Ok(v)
            },
        },
{
    match parse_usize(s) {
        None => Err(OptionError::NotANumber),
        Some(v) => if v > MAX_PERCENT {
            Err(OptionError::LuminosityRange)
        } else {
            Ok(v)
        },
    }
}

} // verus!
