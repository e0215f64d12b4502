use os_identifier::label::EndOfLifeLabel;
use os_identifier::windows::windows_10::Windows10;
use os_identifier::windows::windows_11::Windows11;
use os_identifier::windows::windows_7::Windows7;
use os_identifier::{ParseError, Windows};

fn tokens(s: &str) -> Vec<String> {
    s.split('-').map(|t| t.to_string()).collect()
}

#[test]
fn test_error_not_structured() {
    assert!(matches!(
        EndOfLifeLabel::parse("a b"),
        Err(ParseError::NotStructured)
    ));
    assert!(EndOfLifeLabel::parse("11-24h2-e").is_ok());
}

#[test]
fn test_error_not_this_family() {
    assert_eq!(
        Windows7::parse(&tokens("8-sp1")).err(),
        Some(ParseError::NotThisFamily)
    );
}

#[test]
fn test_error_malformed_label() {
    assert_eq!(
        Windows10::parse("10-1-2-3-4").err(),
        Some(ParseError::MalformedLabel)
    );
    assert_eq!(
        Windows11::parse("11-24h2").err(),
        Some(ParseError::MalformedLabel)
    );
}

#[test]
fn test_error_unrecognized_field() {
    assert_eq!(
        Windows10::parse("10-22h2-x").err(),
        Some(ParseError::UnrecognizedField)
    );
    assert_eq!(
        Windows11::parse("11-24h2-x").err(),
        Some(ParseError::UnrecognizedField)
    );
}

#[test]
fn test_error_unknown_edition() {
    assert_eq!(
        Windows10::parse("Windows 10 Datacenter 19045").err(),
        Some(ParseError::UnknownEdition)
    );
}

#[test]
fn test_error_unknown_release() {
    assert_eq!(
        Windows11::parse("Windows 11 Pro with no version words").err(),
        Some(ParseError::UnknownRelease)
    );
}

#[test]
fn test_error_unknown_operating_system() {
    assert_eq!(
        Windows::parse("eol-1").err(),
        Some(ParseError::UnknownOperatingSystem)
    );
}
