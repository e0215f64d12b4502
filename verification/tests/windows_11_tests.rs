use os_identifier::windows::windows_11::{Edition, Editions, ServiceChannel, Windows11};

#[test]
fn windows_11_test_from_string_iot_lts() {
    let label = Windows11::parse("11-24h2-iot-lts").unwrap();

    assert_eq!(label.vendor, "Microsoft".to_string());
    assert_eq!(label.product, "Windows 11".to_string());
    assert_eq!(label.release.to_string(), "24H2".to_string());

    assert_eq!(label.editions.len(), Editions::all_iot().len());
    assert_eq!(label.service_channel, ServiceChannel::LTSC);
}

#[test]
fn windows_11_test_from_string_e_lts() {
    let label = Windows11::parse("11-24h2-e-lts").unwrap();

    assert_eq!(label.vendor, "Microsoft".to_string());
    assert_eq!(label.product, "Windows 11".to_string());
    assert_eq!(label.release.to_string(), "24H2".to_string());

    assert_eq!(label.editions.len(), Editions::all_e().len());
    assert_eq!(label.service_channel, ServiceChannel::LTSC);
}

#[test]
fn windows_11_test_from_string_e() {
    let label = Windows11::parse("11-24h2-e").unwrap();

    assert_eq!(label.vendor, "Microsoft".to_string());
    assert_eq!(label.product, "Windows 11".to_string());
    assert_eq!(label.release.to_string(), "24H2".to_string());

    assert_eq!(label.editions.len(), Editions::all_e().len());
    assert_eq!(label.service_channel, ServiceChannel::GAC);
}

#[test]
fn windows_11_test_from_string_w() {
    let label = Windows11::parse("11-24h2-w").unwrap();

    assert_eq!(label.vendor, "Microsoft".to_string());
    assert_eq!(label.product, "Windows 11".to_string());
    assert_eq!(label.release.to_string(), "24H2".to_string());

    assert_eq!(label.editions.len(), Editions::all_w().len());
    assert_eq!(label.service_channel, ServiceChannel::GAC);
}

#[test]
fn windows_11_test_from_string_arbitrary1() {
    let label = Windows11::parse(
        "Windows 11 Professional Edition (Build 26100) (64 Bit) GA (General Availability)",
    )
    .unwrap();

    assert_eq!(label.vendor, "Microsoft".to_string());
    assert_eq!(label.product, "Windows 11".to_string());
    assert_eq!(label.release.to_string(), "24H2".to_string());

    assert!(label.editions.contains(Edition::Pro));
    assert_eq!(label.service_channel, ServiceChannel::GAC);
}

#[test]
fn windows_11_test_from_string_arbitrary2() {
    let label = Windows11::parse(
        "Windows 11 Enterprise Edition (Build 26100) (64 Bit) GA (General Availability)",
    )
    .unwrap();

    assert_eq!(label.vendor, "Microsoft".to_string());
    assert_eq!(label.product, "Windows 11".to_string());
    assert_eq!(label.release.to_string(), "24H2".to_string());

    assert!(label.editions.contains(Edition::Enterprise));
    assert_eq!(label.service_channel, ServiceChannel::GAC);
}

#[test]
fn windows_11_test_from_string_arbitrary3() {
    let label = Windows11::parse("Microsoft Windows 11 Enterprise 22000.1219").unwrap();

    assert_eq!(label.vendor, "Microsoft".to_string());
    assert_eq!(label.product, "Windows 11".to_string());
    assert_eq!(label.release.to_string(), "21H2".to_string());

    assert!(label.editions.contains(Edition::Enterprise));
    assert_eq!(label.service_channel, ServiceChannel::GAC);
}

#[test]
fn test_from_string_arbitrary4() {
    let label = Windows11::parse("Microsoft Windows 11 Enterprise 21H2").unwrap();

    assert_eq!(label.vendor, "Microsoft".to_string());
    assert_eq!(label.product, "Windows 11".to_string());
    assert_eq!(label.release.to_string(), "21H2".to_string());

    assert!(label.editions.contains(Edition::Enterprise));
    assert_eq!(label.service_channel, ServiceChannel::GAC);
}
