use local_library::dates::{deserialize_date, pick_date, serialize_date};
use local_library::disks::removable_mount_points;
use local_library::errors::PluginError;
use local_library::keys::pem_or_empty;
use local_library::plugin::{Plugin, SubscriptionProvider};
use local_library::types::{Platform, Timestamp};

#[test]
fn removable_mounts_are_kept_in_order() {
    let all = vec![
        "/".to_string(),
        "/run/media/alice/USB".to_string(),
        "/home".to_string(),
        "/media/sd".to_string(),
        "/mnt/nfs".to_string(),
        "/run/mediax".to_string(),
    ];
    assert_eq!(removable_mount_points(&all), vec!["/run/media/alice/USB", "/media/sd", "/run/mediax"]);
    assert!(removable_mount_points(&vec![]).is_empty());
}

#[test]
fn plugin_error_bus_names() {
    assert_eq!(PluginError::DiskNotFound.bus_name(), "one.playtron.Error.DiskNotFound");
    assert_eq!(PluginError::NetworkRequired.bus_name(), "one.playtron.Error.NetworkRequired");
}

#[test]
fn platform_names() {
    assert_eq!(Platform::MacOS.name(), "MacOS");
    assert_eq!(Platform::Linux.name(), "Linux");
}

#[test]
fn dates_parse_in_both_formats() {
    let t = Timestamp { seconds: 1704164645, nanos: 0 };
    assert_eq!(deserialize_date("2024-01-02T03:04:05"), Some(t));
    assert_eq!(deserialize_date("2024-01-02T03:04:05+00:00"), Some(t));
    assert_eq!(deserialize_date("yesterday"), None);
}

#[test]
fn full_iso_reading_wins() {
    let a = Timestamp { seconds: 10, nanos: 5 };
    let b = Timestamp { seconds: 20, nanos: 0 };
    assert_eq!(pick_date(Some((10, 5)), Some((20, 0))), Some(a));
    assert_eq!(pick_date(None, Some((20, 0))), Some(b));
    assert_eq!(pick_date(None, None), None);
}

#[test]
fn dates_serialize_in_iso_format() {
    let t = Timestamp { seconds: 1704164645, nanos: 0 };
    assert_eq!(serialize_date(Some(t)).as_deref(), Some("2024-01-02T03:04:05+00:00"));
    assert_eq!(serialize_date(None), None);
}

#[test]
fn pem_falls_back_to_empty() {
    assert_eq!(pem_or_empty::<()>(Ok("-----BEGIN RSA PUBLIC KEY-----\nabc".to_string())), "-----BEGIN RSA PUBLIC KEY-----\nabc");
    assert_eq!(pem_or_empty(Err(())), "");
}

#[test]
fn plugin_identity() {
    let p = Plugin {};
    assert_eq!(p.id(), "local");
    assert_eq!(p.name(), "Local games");
    assert_eq!(p.minimum_api_version(), "0.1.1");
}

#[test]
fn subscription_provider_properties() {
    let mut s = SubscriptionProvider::new("Plus".to_string(), "https://example.org".to_string());
    assert_eq!(s.name(), "Plus");
    s.set_name("Extra".to_string());
    s.set_management_url("https://example.org/manage".to_string());
    assert_eq!(s.name(), "Extra");
    assert_eq!(s.management_url(), "https://example.org/manage");
    assert!(s.get_apps().is_empty());
}
