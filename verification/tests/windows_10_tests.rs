use os_identifier::windows::windows_10::{Edition, Editions, ServiceChannel, Windows10};

#[test]
fn windows_10_test_from_string_h2() {
    let label = Windows10::parse("10-22h2").unwrap();

    assert_eq!(label.vendor, "Microsoft".to_string());
    assert_eq!(label.product, "Windows 10".to_string());
    assert_eq!(label.release.to_string(), "22H2".to_string());

    assert_eq!(label.editions.unwrap().len(), Editions::all().len());
    assert_eq!(label.service_channel, ServiceChannel::GAC);
}

#[test]
fn windows_10_test_from_string_h1() {
    let label = Windows10::parse("10-22h1").unwrap();

    assert_eq!(label.vendor, "Microsoft".to_string());
    assert_eq!(label.product, "Windows 10".to_string());
    assert_eq!(label.release.to_string(), "22H1".to_string());

    assert_eq!(label.editions.unwrap().len(), Editions::all().len());
    assert_eq!(label.service_channel, ServiceChannel::SAC);
}

#[test]
fn windows_10_test_from_string_e() {
    let label = Windows10::parse("10-1809-e").unwrap();

    assert_eq!(label.vendor, "Microsoft".to_string());
    assert_eq!(label.product, "Windows 10".to_string());
    assert_eq!(label.release.to_string(), "1809".to_string());

    assert_eq!(label.editions.unwrap().len(), Editions::all_e().len());
    assert_eq!(label.service_channel, ServiceChannel::GAC);
}

#[test]
fn windows_10_test_from_string_w() {
    let label = Windows10::parse("10-1809-w").unwrap();

    assert_eq!(label.vendor, "Microsoft".to_string());
    assert_eq!(label.product, "Windows 10".to_string());
    assert_eq!(label.release.to_string(), "1809".to_string());

    assert_eq!(label.editions.unwrap().len(), Editions::all_w().len());
    assert_eq!(label.service_channel, ServiceChannel::GAC);
}

#[test]
fn windows_10_test_from_string_enterpise_ltsc() {
    let label = Windows10::parse("10-1809-e-lts").unwrap();

    assert_eq!(label.vendor, "Microsoft".to_string());
    assert_eq!(label.product, "Windows 10".to_string());
    assert_eq!(label.release.to_string(), "1809".to_string());

    assert_eq!(label.editions.unwrap().len(), Editions::all_e().len());
    assert_eq!(label.service_channel, ServiceChannel::LTSC);
}

#[test]
fn windows_10_test_from_string_enterpise_ltsb() {
    let label = Windows10::parse("10-1607-e-lts").unwrap();

    assert_eq!(label.vendor, "Microsoft".to_string());
    assert_eq!(label.product, "Windows 10".to_string());
    assert_eq!(label.release.to_string(), "1607".to_string());

    assert_eq!(label.editions.unwrap().len(), Editions::all_e().len());
    assert_eq!(label.service_channel, ServiceChannel::LTSB);
}

#[test]
fn windows_10_test_from_string_all_editions() {
    let label = Windows10::parse("10-1507").unwrap();

    assert_eq!(label.vendor, "Microsoft".to_string());
    assert_eq!(label.product, "Windows 10".to_string());
    assert_eq!(label.release.to_string(), "1507".to_string());

    assert_eq!(label.editions.unwrap().len(), Editions::all().len());
    assert_eq!(label.service_channel, ServiceChannel::GAC);
}

#[test]
fn windows_10_test_from_string_iot_core() {
    let label = Windows10::parse("10-1507-iot").unwrap();

    assert_eq!(label.vendor, "Microsoft".to_string());
    assert_eq!(label.product, "Windows 10 IoT Core".to_string());
    assert_eq!(label.release.to_string(), "1507".to_string());

    assert!(label.editions.is_none());
    assert_eq!(label.service_channel, ServiceChannel::GAC);
}

#[test]
fn windows_10_test_from_string_arbitrary1() {
    let label = Windows10::parse(
        "Windows 10 Professional Edition (Build 19045) (64 Bit) GA (General Availability)",
    )
    .unwrap();

    assert_eq!(label.vendor, "Microsoft".to_string());
    assert_eq!(label.product, "Windows 10".to_string());
    assert_eq!(label.release.to_string(), "22H2".to_string());

    assert!(label.editions.unwrap().contains(Edition::Pro));
    assert_eq!(label.service_channel, ServiceChannel::GAC);
}

#[test]
fn windows_10_test_from_string_arbitrary2() {
    let label = Windows10::parse("Microsoft Windows 10 Pro 17763").unwrap();

    assert_eq!(label.vendor, "Microsoft".to_string());
    assert_eq!(label.product, "Windows 10".to_string());
    assert_eq!(label.release.to_string(), "1809".to_string());

    assert!(label.editions.unwrap().contains(Edition::Pro));
    assert_eq!(label.service_channel, ServiceChannel::GAC);
}

#[test]
fn windows_10_test_from_string_arbitrary3() {
    let label = Windows10::parse("Microsoft Windows 10 Enterprise 21H1").unwrap();

    assert_eq!(label.vendor, "Microsoft".to_string());
    assert_eq!(label.product, "Windows 10".to_string());
    assert_eq!(label.release.to_string(), "21H1".to_string());

    assert!(label.editions.unwrap().contains(Edition::Enterprise));
    assert_eq!(label.service_channel, ServiceChannel::GAC);
}
