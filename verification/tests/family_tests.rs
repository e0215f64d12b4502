use os_identifier::windows::windows_7::Windows7;
use os_identifier::windows::windows_8::Windows8;
use os_identifier::windows::windows_server_1709ff::{
    Edition as Edition1709ff, Editions as Editions1709ff, ServiceChannel as Channel1709ff,
    WindowsServer1709ff,
};
use os_identifier::windows::windows_server_2008::{
    Editions as Editions2008, WindowsServer2008,
};
use os_identifier::windows::windows_server_2008_r2::{
    Editions as Editions2008R2, WindowsServer2008R2,
};
use os_identifier::windows::windows_server_2012_r2::{
    Editions as Editions2012R2, WindowsServer2012R2,
};
use os_identifier::windows::windows_server_2016::{
    Editions as Editions2016, WindowsServer2016,
};
use os_identifier::windows::windows_server_2019ff::{
    Editions as Editions2019ff, WindowsServer2019ff,
};
use os_identifier::windows::windows_vista::WindowsVista;
use os_identifier::windows::windows_xp::WindowsXP;

fn tokens(s: &str) -> Vec<String> {
    s.split('-').map(|t| t.to_string()).collect()
}

#[test]
fn windows_7_test_from_string() {
    let label = Windows7::parse(&tokens("7-sp1")).unwrap();

    assert_eq!(label.vendor, "Microsoft".to_string());
    assert_eq!(label.product, "Windows 7".to_string());
    assert_eq!(label.release.to_string(), "SP1".to_string());

    assert_eq!(
        label.editions.len(),
        os_identifier::windows::windows_7::Editions::all().len()
    );
}

#[test]
fn test_from_string_8() {
    let label = Windows8::parse("8").unwrap();

    assert_eq!(label.vendor, "Microsoft".to_string());
    assert_eq!(label.product, "Windows 8".to_string());

    assert_eq!(
        label.editions.len(),
        os_identifier::windows::windows_8::Editions::all().len()
    );
}

#[test]
fn test_from_string_81() {
    let label = Windows8::parse("8.1").unwrap();

    assert_eq!(label.vendor, "Microsoft".to_string());
    assert_eq!(label.product, "Windows 8.1".to_string());

    assert_eq!(
        label.editions.len(),
        os_identifier::windows::windows_8::Editions::all().len()
    );
}

#[test]
fn windows_vista_test_from_string() {
    let label = WindowsVista::parse(&tokens("6-sp2")).unwrap();

    assert_eq!(label.vendor, "Microsoft".to_string());
    assert_eq!(label.product, "Windows Vista".to_string());
    assert_eq!(label.release.to_string(), "SP2".to_string());

    assert_eq!(
        label.editions.len(),
        os_identifier::windows::windows_vista::Editions::all().len()
    );
}

#[test]
fn windows_xp_test_from_string() {
    let label = WindowsXP::parse(&tokens("5-sp3")).unwrap();

    assert_eq!(label.vendor, "Microsoft".to_string());
    assert_eq!(label.product, "Windows XP".to_string());
    assert_eq!(label.release.to_string(), "SP3".to_string());

    assert_eq!(
        label.editions.len(),
        os_identifier::windows::windows_xp::Editions::all().len()
    );
}

#[test]
fn windows_server_2008_test_from_string_wo_release() {
    let label = WindowsServer2008::parse(&tokens("2008")).unwrap();

    assert_eq!(label.vendor, "Microsoft".to_string());
    assert_eq!(label.product, "Windows Server 2008".to_string());
    assert_eq!(label.editions.len(), Editions2008::all().len());
    assert!(label.release.is_none());
}

#[test]
fn windows_server_2008_test_from_string_w_release() {
    let label = WindowsServer2008::parse(&tokens("2008-sp2")).unwrap();

    assert_eq!(label.vendor, "Microsoft".to_string());
    assert_eq!(label.product, "Windows Server 2008".to_string());
    assert_eq!(label.editions.len(), Editions2008::all().len());
    assert!(label.release.is_some());
    assert_eq!(label.release.unwrap().to_string(), "SP2".to_string());
}

#[test]
fn windows_server_2008_r2_test_from_string_wo_release() {
    let label = WindowsServer2008R2::parse(&tokens("2008-r2")).unwrap();

    assert_eq!(label.vendor, "Microsoft".to_string());
    assert_eq!(label.product, "Windows Server 2008 R2".to_string());
    assert_eq!(label.editions.len(), Editions2008R2::all().len());
    assert!(label.release.is_none());
}

#[test]
fn windows_server_2008_r2_test_from_string_w_release() {
    let label = WindowsServer2008R2::parse(&tokens("2008-r2-sp1")).unwrap();

    assert_eq!(label.vendor, "Microsoft".to_string());
    assert_eq!(label.product, "Windows Server 2008 R2".to_string());
    assert_eq!(label.editions.len(), Editions2008R2::all().len());
    assert!(label.release.is_some());
    assert_eq!(label.release.unwrap().to_string(), "SP1".to_string());
}

#[test]
fn windows_server_2012_r2_test_from_string_wo_release() {
    let label = WindowsServer2012R2::parse(&tokens("2012-r2")).unwrap();

    assert_eq!(label.vendor, "Microsoft".to_string());
    assert_eq!(label.product, "Windows Server 2012 R2".to_string());
    assert_eq!(label.editions.len(), Editions2012R2::all().len());
    assert!(label.release.is_none());
}

#[test]
fn windows_server_2016_test_from_string_wo_release() {
    let label = WindowsServer2016::parse(&tokens("2016")).unwrap();

    assert_eq!(label.vendor, "Microsoft".to_string());
    assert_eq!(label.product, "Windows Server 2016".to_string());
    assert_eq!(label.editions.len(), Editions2016::all().len());
    assert!(label.release.is_none());
}

#[test]
fn test_from_string_2019() {
    let label = WindowsServer2019ff::parse(&tokens("2019")).unwrap();

    assert_eq!(label.vendor, "Microsoft".to_string());
    assert_eq!(label.product, "Windows Server 2019".to_string());
    assert_eq!(label.editions.len(), Editions2019ff::all().len());
    assert!(label.release.is_none());
}

#[test]
fn test_from_string_2022() {
    let label = WindowsServer2019ff::parse(&tokens("2022")).unwrap();

    assert_eq!(label.vendor, "Microsoft".to_string());
    assert_eq!(label.product, "Windows Server 2022".to_string());
    assert_eq!(label.editions.len(), Editions2019ff::all().len());
    assert!(label.release.is_none());
}

#[test]
fn test_from_string_2025() {
    let label = WindowsServer2019ff::parse(&tokens("2025")).unwrap();

    assert_eq!(label.vendor, "Microsoft".to_string());
    assert_eq!(label.product, "Windows Server 2025".to_string());
    assert_eq!(label.editions.len(), Editions2019ff::all().len());
    assert!(label.release.is_none());
}

#[test]
fn test_from_string_1709_sac() {
    let label = WindowsServer1709ff::parse(&tokens("1709-sac")).unwrap();

    assert_eq!(label.vendor, "Microsoft".to_string());
    assert_eq!(label.product, "Windows Server".to_string());
    assert_eq!(label.editions.len(), Editions1709ff::all().len());
    assert_eq!(label.release.unwrap().0, "1709");
    assert_eq!(label.service_channel, Channel1709ff::SAC);
}

#[test]
fn test_from_string_20h2_sac() {
    let label = WindowsServer1709ff::parse(&tokens("20h2-sac")).unwrap();

    assert_eq!(label.vendor, "Microsoft".to_string());
    assert_eq!(label.product, "Windows Server".to_string());
    assert_eq!(label.editions.len(), Editions1709ff::all().len());
    assert_eq!(label.release.unwrap().0, "20H2");
    assert_eq!(label.service_channel, Channel1709ff::SAC);
}

#[test]
fn test_from_string_23h2_ac() {
    let label = WindowsServer1709ff::parse(&tokens("23h2-ac")).unwrap();

    assert_eq!(label.vendor, "Microsoft".to_string());
    assert_eq!(label.product, "Windows Server".to_string());

    assert_eq!(label.editions.len(), 1);
    assert!(label.editions.contains(Edition1709ff::Datacenter));

    assert_eq!(label.release.unwrap().0, "23H2");
    assert_eq!(label.service_channel, Channel1709ff::AC);
}
