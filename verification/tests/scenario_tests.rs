use os_identifier::windows::windows_10::{
    ServiceChannel as Channel10, Windows10,
};
use os_identifier::util::is_subdivided_by_dashes_only;
use os_identifier::windows::windows_11::Windows11;
use os_identifier::{ParseError, Windows, OS};

#[test]
fn test_scenario_structured_11_enterprise() {
    let os = OS::parse("11-24h2-e").unwrap();
    assert!(os
        .to_string()
        .contains(&String::from("Microsoft Windows 11 Enterprise 24H2")));
}

#[test]
fn test_scenario_iot_core_renders_without_edition() {
    let label = Windows10::parse("10-1507-iot").unwrap();
    assert!(label.editions.is_none());

    let os = OS::parse("10-1507-iot").unwrap();
    let lines = os.to_string();
    assert_eq!(lines.len(), 1);
    assert!(lines.contains(&String::from("Microsoft Windows 10 IoT Core 1507")));
}

#[test]
fn test_scenario_ltsb_cutoff() {
    // a release before the cutoff combined with a long-term request keeps
    // the older long-term channel name
    let label = Windows10::parse("10-1607-e-lts").unwrap();
    assert_eq!(label.service_channel, Channel10::LTSB);
    let os = OS::parse("10-1607-e-lts").unwrap();
    assert!(os
        .to_string()
        .contains(&String::from("Microsoft Windows 10 Enterprise 1607 LTSB")));
}

#[test]
fn test_scenario_free_text_label_fallback() {
    let os = OS::parse("Microsoft Windows 11 Enterprise 21H2").unwrap();
    assert!(os
        .to_string()
        .contains(&String::from("Microsoft Windows 11 Enterprise 21H2")));
}

#[test]
fn test_scenario_unknown_build_is_not_malformed() {
    // a five-digit build absent from every correspondence table fails with
    // the explicit unknown-build reason
    let r = Windows11::parse("Microsoft Windows 11 Enterprise 99999");
    assert_eq!(r.err(), Some(ParseError::UnknownBuild));
    let r = Windows10::parse("Microsoft Windows 10 Pro 99999");
    assert_eq!(r.err(), Some(ParseError::UnknownBuild));
    // and the whole resolution fails rather than silently defaulting
    assert!(OS::parse("Microsoft Windows NT Enterprise 99999").is_err());
}

#[test]
fn test_scenario_unrecognized_input_fails() {
    assert!(OS::parse("eol-1").is_err());
    assert!(OS::parse("").is_err());
}

#[test]
fn test_scenario_every_resolution_renders_a_line() {
    for input in [
        "11-24h2-e",
        "10-1507-iot",
        "10-22h2",
        "8",
        "7-sp1",
        "6-sp1",
        "5-sp2",
        "23h2-ac",
        "2019",
        "2016",
        "2012-r2",
        "2012",
        "2008-r2",
        "2008",
        "2003",
        "2000",
        "Microsoft Windows 10 Pro 17763",
    ] {
        let os = OS::parse(input).unwrap();
        assert!(os.to_string().len() >= 1);
    }
}

#[test]
fn test_scenario_round_trip_release_in_every_line() {
    let os = OS::parse("10-1809-e-lts").unwrap();
    for line in os.to_string() {
        assert!(line.contains("1809"));
    }
    let os = OS::parse("11-24h2-w").unwrap();
    for line in os.to_string() {
        assert!(line.contains("24H2"));
    }
}

#[test]
fn test_scenario_classification_is_stable() {
    for input in ["11-24h2-e", "Microsoft Windows 11 Enterprise 21H2", ""] {
        let first = is_subdivided_by_dashes_only(input);
        let second = is_subdivided_by_dashes_only(input);
        assert_eq!(first, second);
    }
}

#[test]
fn test_scenario_precedence_r2_wins() {
    // `2012-r2` is a valid label for both the 2012 R2 family and the plain
    // 2012 family (which would read `r2` as a release); the newer family
    // wins by dispatch order
    let os = Windows::parse("2012-r2").unwrap();
    for line in os.to_string() {
        assert!(line.contains("Windows Server 2012 R2"));
    }
    let os = Windows::parse("2008-r2").unwrap();
    for line in os.to_string() {
        assert!(line.contains("Windows Server 2008 R2"));
    }
}

#[test]
fn test_scenario_channel_suffix_only_when_not_default() {
    // GAC is a default channel and is never rendered
    let os = OS::parse("10-22h2").unwrap();
    for line in os.to_string() {
        assert!(!line.contains("GAC"));
    }
    // LTSC is not, and is appended
    let os = OS::parse("10-1809-e-lts").unwrap();
    for line in os.to_string() {
        assert!(line.ends_with("LTSC"));
    }
}
