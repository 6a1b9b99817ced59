use vstd::prelude::*;
use vstd::string::*;

verus! {

/// Which scope the player view shows.
#[derive(Debug, Clone, Copy, PartialEq, Eq, Structural)]
pub enum CurrentDisplayMode {
    Oscilloscope,
    Vectorscope,
    Spectroscope,
    Blank,
}

/// Invalid display mode error.
#[derive(Debug, Clone, Copy, PartialEq, Eq, Structural)]
pub struct InvalidDisplayModeError;

impl InvalidDisplayModeError {
    /// The error's message.
    pub fn message(&self) -> (r: String)
        ensures
            r@ == "invalid display mode"@,
    {
        String::from_str("invalid display mode")
    }
}

/// The display mode a name stands for, when it is one of the four names.
pub open spec fn spec_display_mode(s: Seq<char>) -> Option<CurrentDisplayMode> {
    if s == "Oscilloscope"@ {
        Some(CurrentDisplayMode::Oscilloscope)
    } else if s == "Vectorscope"@ {
        Some(CurrentDisplayMode::Vectorscope)
    } else if s == "Spectroscope"@ {
        Some(CurrentDisplayMode::Spectroscope)
    } else if s == "None"@ {
        Some(CurrentDisplayMode::Blank)
    } else {
        Option::None
    }
}

impl CurrentDisplayMode {
    /// The display mode named `s` (names are case-sensitive).
    pub fn parse(s: &str) -> (r: Result<CurrentDisplayMode, InvalidDisplayModeError>)
        ensures
            r matches Ok(m) ==> spec_display_mode(s@) == Some(m),
            r is Err <==> spec_display_mode(s@) is None,
    {
        let name = s.to_owned();
        if name == String::from_str("Oscilloscope") {
            Ok(CurrentDisplayMode::Oscilloscope)
        } else if name == String::from_str("Vectorscope") {
            Ok(CurrentDisplayMode::Vectorscope)
        } else if name == String::from_str("Spectroscope") {
            Ok(CurrentDisplayMode::Spectroscope)
        } else if name == String::from_str("None") {
            Ok(CurrentDisplayMode::Blank)
        } else {
            Err(InvalidDisplayModeError)
        }
    }
}

impl std::str::FromStr for CurrentDisplayMode {
    type Err = InvalidDisplayModeError;

    fn from_str(s: &str) -> Result<CurrentDisplayMode, InvalidDisplayModeError> {
        CurrentDisplayMode::parse(s)
    }
}

} // verus!
