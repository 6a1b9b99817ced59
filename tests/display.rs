use tunein_cli::display::{CurrentDisplayMode, InvalidDisplayModeError};

#[test]
fn display_modes_parse_by_name() {
    assert_eq!("Oscilloscope".parse::<CurrentDisplayMode>(), Ok(CurrentDisplayMode::Oscilloscope));
    assert_eq!("Vectorscope".parse::<CurrentDisplayMode>(), Ok(CurrentDisplayMode::Vectorscope));
    assert_eq!("Spectroscope".parse::<CurrentDisplayMode>(), Ok(CurrentDisplayMode::Spectroscope));
    assert_eq!("None".parse::<CurrentDisplayMode>(), Ok(CurrentDisplayMode::Blank));
}

#[test]
fn unknown_display_mode_is_an_error() {
    assert_eq!(CurrentDisplayMode::parse("spectroscope"), Err(InvalidDisplayModeError));
    assert_eq!(CurrentDisplayMode::parse(""), Err(InvalidDisplayModeError));
    assert_eq!(InvalidDisplayModeError.message(), "invalid display mode");
}
