use oauth_spoof::device::{Device, Platform};
use oauth_spoof::headers::HeaderMap;
use oauth_spoof::numbers::u64_to_string;

fn header(d: &Device, name: &str) -> String {
    d.headers.get(&name.to_string()).unwrap().clone()
}

#[test]
fn test_creating_device() {
    Device::random();
}

#[test]
fn android_identity_has_required_headers() {
    let d = Device::android();
    assert!(matches!(d.platform, Platform::Android));
    assert_eq!(header(&d, "Client-Vendor-Id"), d.instance_id);
    assert_eq!(header(&d, "X-Reddit-Device-Id"), d.instance_id);
    let ua = header(&d, "User-Agent");
    assert!(ua.starts_with("Reddit/Version "), "unexpected user agent: {ua}");
    assert!(ua.contains("/Android "), "unexpected user agent: {ua}");
    assert_eq!(d.headers.len(), 3);
    assert_eq!(d.initial_headers.len(), 3);
}

#[test]
fn ios_identity_has_required_headers() {
    let d = Device::ios();
    assert!(matches!(d.platform, Platform::Ios));
    assert_eq!(header(&d, "X-Reddit-DPR"), "2");
    assert_eq!(header(&d, "Client-Vendor-Id"), d.instance_id);
    assert_eq!(header(&d, "x-reddit-device-id"), d.instance_id);
    assert_eq!(
        header(&d, "x-dev-ad-id"),
        "00000000-0000-0000-0000-000000000000"
    );
    assert_eq!(header(&d, "Reddit-User_Id"), "anonymous_browsing_mode");
    let ua = header(&d, "User-Agent");
    assert!(ua.starts_with("Reddit/Version "), "unexpected user agent: {ua}");
    assert!(ua.contains("/iOS "), "unexpected user agent: {ua}");
    let name = header(&d, "Device-Name");
    assert!(name.starts_with("iPhone"), "unexpected device name: {name}");
    assert!(name.ends_with(",1"), "unexpected device name: {name}");
    assert_eq!(d.headers.len(), 7);
    assert_eq!(d.initial_headers.len(), 3);
}

#[test]
fn independent_identities_have_distinct_instance_ids() {
    let a = Device::random();
    let b = Device::random();
    assert_eq!(a.instance_id.len(), 36);
    assert_eq!(b.instance_id.len(), 36);
    assert_ne!(a.instance_id, b.instance_id);
}

#[test]
fn header_map_insert_replaces_existing_name() {
    let mut m = HeaderMap::new();
    m.insert("a".to_string(), "1".to_string());
    m.insert("b".to_string(), "2".to_string());
    assert_eq!(m.len(), 2);
    m.insert("a".to_string(), "3".to_string());
    assert_eq!(m.len(), 2);
    assert_eq!(m.get(&"a".to_string()), Some(&"3".to_string()));
    assert_eq!(m.get(&"b".to_string()), Some(&"2".to_string()));
    assert_eq!(m.get(&"c".to_string()), None);
    assert!(m.contains_key(&"a".to_string()));
    assert!(!m.contains_key(&"c".to_string()));
}

#[test]
fn decimal_formatting_is_exact() {
    assert_eq!(u64_to_string(0), "0");
    assert_eq!(u64_to_string(7), "7");
    assert_eq!(u64_to_string(120), "120");
    assert_eq!(u64_to_string(18446744073709551615), "18446744073709551615");
}

#[test]
fn android_initial_headers_equal_persistent_headers() {
    let d = Device::android();
    let mut a = d.initial_headers.pairs().clone();
    let mut b = d.headers.pairs().clone();
    a.sort();
    b.sort();
    assert_eq!(a, b);
}

#[test]
fn android_os_version_is_in_range() {
    let d = Device::android();
    let ua = header(&d, "User-Agent");
    let os: u32 = ua.rsplit(' ').next().unwrap().parse().unwrap();
    assert!((9..=14).contains(&os), "unexpected OS version in {ua}");
}

#[test]
fn ios_model_number_is_in_range() {
    let d = Device::ios();
    let name = header(&d, "Device-Name");
    let digits = name
        .strip_prefix("iPhone")
        .unwrap()
        .strip_suffix(",1")
        .unwrap();
    let model: u32 = digits.parse().unwrap();
    assert!((8..=15).contains(&model), "unexpected device name {name}");
}

#[test]
fn ios_shared_headers_agree_with_initial_set() {
    let d = Device::ios();
    for key in ["X-Reddit-DPR", "User-Agent", "Device-Name"] {
        assert_eq!(
            d.initial_headers.get(&key.to_string()),
            d.headers.get(&key.to_string())
        );
    }
}
