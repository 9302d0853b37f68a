//! Shape of the constructed connection-profile payload and of the
//! activation request.

use wifi_config::profile::build_profile;
use wifi_config::profile::SettingValue;
use wifi_config::provision::build_request;
use wifi_config::provision::ADD_AND_ACTIVATE_METHOD;
use wifi_config::provision::CALL_TIMEOUT_SECS;
use wifi_config::provision::DEVICE_INTERFACE;
use wifi_config::provision::DEVICE_TYPE_PROPERTY;
use wifi_config::provision::GET_DEVICES_METHOD;
use wifi_config::provision::ROOT_OBJECT_PATH;
use wifi_config::provision::SERVICE_NAME;
use wifi_config::provision::WIFI_DEVICE_TYPE;

#[test]
fn profile_has_the_exact_payload_shape() {
    let profile = build_profile("MyHomeWiFi", "supersecret123");
    assert_eq!(profile.groups.len(), 2);

    let wireless = &profile.groups[0];
    assert_eq!(wireless.name, "802-11-wireless");
    assert_eq!(wireless.entries.len(), 2);
    assert_eq!(wireless.entries[0].key, "ssid");
    assert_eq!(
        wireless.entries[0].value,
        SettingValue::Bytes("MyHomeWiFi".as_bytes().to_vec())
    );
    assert_eq!(wireless.entries[1].key, "mode");
    assert_eq!(
        wireless.entries[1].value,
        SettingValue::Text("infrastructure".to_string())
    );

    let security = &profile.groups[1];
    assert_eq!(security.name, "802-11-wireless-security");
    assert_eq!(security.entries.len(), 2);
    assert_eq!(security.entries[0].key, "key-mgmt");
    assert_eq!(security.entries[0].value, SettingValue::Text("wpa-psk".to_string()));
    assert_eq!(security.entries[1].key, "psk");
    assert_eq!(
        security.entries[1].value,
        SettingValue::Text("supersecret123".to_string())
    );
}

#[test]
fn profile_encodes_a_non_ascii_ssid_as_utf8_bytes() {
    let ssid = "caf\u{e9} \u{2615}";
    let profile = build_profile(ssid, "p\u{e4}ssword\u{2713}");
    assert_eq!(
        profile.groups[0].entries[0].value,
        SettingValue::Bytes(ssid.as_bytes().to_vec())
    );
    assert_eq!(
        profile.groups[1].entries[1].value,
        SettingValue::Text("p\u{e4}ssword\u{2713}".to_string())
    );
}

#[test]
fn request_carries_device_and_placeholder_path() {
    let device = "/org/freedesktop/NetworkManager/Devices/7";
    let request = build_request("MyHomeWiFi", "supersecret123", device);
    assert_eq!(request.device, device);
    assert_eq!(request.specific_object, "/");
    assert_eq!(request.profile, build_profile("MyHomeWiFi", "supersecret123"));
}

#[test]
fn building_twice_yields_equal_profiles() {
    let first = build_profile("MyHomeWiFi", "supersecret123");
    let second = build_profile("MyHomeWiFi", "supersecret123");
    assert_eq!(first, second);
}

#[test]
fn addressing_constants_match_the_service_interface() {
    assert_eq!(SERVICE_NAME, "org.freedesktop.NetworkManager");
    assert_eq!(ROOT_OBJECT_PATH, "/org/freedesktop/NetworkManager");
    assert_eq!(DEVICE_INTERFACE, "org.freedesktop.NetworkManager.Device");
    assert_eq!(DEVICE_TYPE_PROPERTY, "DeviceType");
    assert_eq!(GET_DEVICES_METHOD, "GetDevices");
    assert_eq!(ADD_AND_ACTIVATE_METHOD, "AddAndActivateConnection");
    assert_eq!(WIFI_DEVICE_TYPE, 2);
    assert_eq!(CALL_TIMEOUT_SECS, 10);
}
