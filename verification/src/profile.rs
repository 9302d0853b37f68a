//! The connection-profile payload: a two-level mapping from setting-group
//! names to typed settings, as the network-management service's
//! "add and activate connection" call expects it.

use vstd::prelude::*;
use vstd::slice::slice_to_vec;
use vstd::string::StringSliceAdditionalSpecFns;

verus! {

/// One typed setting value. The service's settings dictionary is
/// dynamically typed on the wire; only these kinds are ever produced
/// here. An SSID travels as raw bytes, not as a display string.
#[derive(Debug, PartialEq, Eq)]
pub enum SettingValue {
    Text(String),
    Bytes(Vec<u8>),
}

/// Mathematical value of a [`SettingValue`].
#[verifier::ext_equal]
pub enum SettingView {
    Text(Seq<char>),
    Bytes(Seq<u8>),
}

impl View for SettingValue {
    type V = SettingView;

    open spec fn view(&self) -> SettingView {
        match self {
            SettingValue::Text(s) => SettingView::Text(s@),
            SettingValue::Bytes(b) => SettingView::Bytes(b@),
        }
    }
}

/// One named setting inside a group.
#[derive(Debug, PartialEq, Eq)]
pub struct SettingEntry {
    pub key: String,
    pub value: SettingValue,
}

/// Mathematical value of a [`SettingEntry`].
#[verifier::ext_equal]
pub struct EntryView {
    pub key: Seq<char>,
    pub value: SettingView,
}

impl View for SettingEntry {
    type V = EntryView;

    open spec fn view(&self) -> EntryView {
        EntryView { key: self.key@, value: self.value@ }
    }
}

/// One setting group: a group name and its settings, in insertion order.
#[derive(Debug, PartialEq, Eq)]
pub struct SettingsGroup {
    pub name: String,
    pub entries: Vec<SettingEntry>,
}

/// Mathematical value of a [`SettingsGroup`].
#[verifier::ext_equal]
pub struct GroupView {
    pub name: Seq<char>,
    pub entries: Seq<EntryView>,
}

impl View for SettingsGroup {
    type V = GroupView;

    open spec fn view(&self) -> GroupView {
        GroupView {
            name: self.name@,
            entries: self.entries@.map_values(|e: SettingEntry| e@),
        }
    }
}

/// A whole connection profile: the setting groups, in insertion order.
#[derive(Debug, PartialEq, Eq)]
pub struct ConnectionProfile {
    pub groups: Vec<SettingsGroup>,
}

impl View for ConnectionProfile {
    type V = Seq<GroupView>;

    open spec fn view(&self) -> Seq<GroupView> {
        self.groups@.map_values(|g: SettingsGroup| g@)
    }
}

/// The wireless group of a Wi-Fi profile: the SSID as raw bytes and the
/// operating mode fixed to infrastructure.
pub open spec fn wireless_group_view(ssid_bytes: Seq<u8>) -> GroupView {
    GroupView {
        name: "802-11-wireless"@,
        entries: seq![
            EntryView { key: "ssid"@, value: SettingView::Bytes(ssid_bytes) },
            EntryView { key: "mode"@, value: SettingView::Text("infrastructure"@) },
        ],
    }
}

/// The security group of a Wi-Fi profile: key management fixed to WPA-PSK
/// and the pre-shared key passed through unchanged.
pub open spec fn security_group_view(password: Seq<char>) -> GroupView {
    GroupView {
        name: "802-11-wireless-security"@,
        entries: seq![
            EntryView { key: "key-mgmt"@, value: SettingView::Text("wpa-psk"@) },
            EntryView { key: "psk"@, value: SettingView::Text(password) },
        ],
    }
}

/// The full payload built from an SSID's bytes and a password: exactly the
/// wireless group followed by the security group.
pub open spec fn wifi_profile_view(ssid_bytes: Seq<u8>, password: Seq<char>) -> Seq<GroupView> {
    seq![wireless_group_view(ssid_bytes), security_group_view(password)]
}

/// Builds the connection profile for an infrastructure-mode WPA-PSK
/// network: the SSID as its UTF-8 bytes and the password as given.
pub fn build_profile(ssid: &str, password: &str) -> (profile: ConnectionProfile)
    ensures
        profile@ == wifi_profile_view(ssid.spec_bytes(), password@),
{
    let ssid_bytes: Vec<u8> = slice_to_vec(ssid.as_bytes());

    let mut wireless: Vec<SettingEntry> = Vec::new();
    wireless.push(SettingEntry { key: "ssid".to_owned(), value: SettingValue::Bytes(ssid_bytes) });
    wireless.push(SettingEntry {
        key: "mode".to_owned(),
        value: SettingValue::Text("infrastructure".to_owned()),
    });

    let mut security: Vec<SettingEntry> = Vec::new();
    security.push(SettingEntry {
        key: "key-mgmt".to_owned(),
        value: SettingValue::Text("wpa-psk".to_owned()),
    });
    security.push(SettingEntry {
        key: "psk".to_owned(),
        value: SettingValue::Text(password.to_owned()),
    });

    let mut groups: Vec<SettingsGroup> = Vec::new();
    groups.push(SettingsGroup { name: "802-11-wireless".to_owned(), entries: wireless });
    groups.push(SettingsGroup { name: "802-11-wireless-security".to_owned(), entries: security });

    let profile = ConnectionProfile { groups };
    proof {
        assert(profile@ =~~= wifi_profile_view(ssid.spec_bytes(), password@));
    }
    profile
}

} // verus!
