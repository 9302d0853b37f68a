//! Decisions of one provisioning attempt: which device to use, what to
//! send, and what the attempt's outcome is.
//!
//! The remote calls are inter-process I/O and happen outside the library.
//! A caller enumerates the devices itself, then drives the scan with
//! [`scan_begin`] and [`scan_advance`], reading one device type per step;
//! the steps say exactly which device is queried next, so no device past
//! the first wireless one is ever read. The activation call's reply is
//! handed to [`activation_outcome`] as a plain `Result`.

use vstd::prelude::*;
use vstd::string::StringSliceAdditionalSpecFns;

use crate::profile::build_profile;
use crate::profile::ConnectionProfile;
use crate::profile::GroupView;
use crate::profile::wifi_profile_view;

verus! {

/// Device-type code with which the network-management service marks a
/// wireless adapter.
pub const WIFI_DEVICE_TYPE: u32 = 2;

/// Well-known bus name of the network-management service.
pub const SERVICE_NAME: &'static str = "org.freedesktop.NetworkManager";

/// Object path of the service's root object.
pub const ROOT_OBJECT_PATH: &'static str = "/org/freedesktop/NetworkManager";

/// Interface on which a device object reports its properties.
pub const DEVICE_INTERFACE: &'static str = "org.freedesktop.NetworkManager.Device";

/// Name of the property holding a device's type code.
pub const DEVICE_TYPE_PROPERTY: &'static str = "DeviceType";

/// Name of the root object's device-enumeration method.
pub const GET_DEVICES_METHOD: &'static str = "GetDevices";

/// Name of the root object's method that creates and activates a
/// connection.
pub const ADD_AND_ACTIVATE_METHOD: &'static str = "AddAndActivateConnection";

/// Timeout, in seconds, for every remote call.
pub const CALL_TIMEOUT_SECS: u64 = 10;

/// Outcome of one provisioning attempt.
#[derive(Debug, PartialEq, Eq)]
pub enum Outcome {
    /// The service accepted and activated the connection.
    Succeeded,
    /// No device reported the wireless type code; nothing was sent.
    NoWifiDeviceFound,
    /// The activation call failed; the detail is the service's error text.
    RemoteCallFailed(String),
}

/// One step of the device scan, over a list of `device_count` devices
/// indexed from zero.
#[derive(Debug, PartialEq, Eq)]
pub enum ScanStep {
    /// Read the type of the device at this index next.
    Query(usize),
    /// The device at this index is the one to use; read no further types.
    Found(usize),
    /// Every device was examined and none was wireless.
    NotFound,
}

/// Index of the first wireless device in a list of device types, if any.
pub open spec fn first_wifi_index(types: Seq<u32>) -> Option<int>
    decreases types.len(),
{
    if types.len() == 0 {
        None
    } else if types[0] == WIFI_DEVICE_TYPE {
        Some(0 as int)
    } else {
        match first_wifi_index(types.drop_first()) {
            Some(i) => Some(i + 1),
            None => None,
        }
    }
}

/// First-match selection: `first_wifi_index` yields exactly the smallest
/// index whose type is the wireless code, and `None` exactly when no
/// index has it.
pub proof fn lemma_first_wifi_index_is_first_match(types: Seq<u32>)
    ensures
        match first_wifi_index(types) {
            Some(n) => 0 <= n < types.len() && types[n] == WIFI_DEVICE_TYPE && (forall|j: int|
                0 <= j < n ==> types[j] != WIFI_DEVICE_TYPE),
            None => forall|j: int| 0 <= j < types.len() ==> types[j] != WIFI_DEVICE_TYPE,
        },
    decreases types.len(),
{
    if types.len() == 0 {
    } else if types[0] == WIFI_DEVICE_TYPE {
    } else {
        lemma_first_wifi_index_is_first_match(types.drop_first());
        assert(forall|j: int| 1 <= j < types.len() ==> types[j] == types.drop_first()[j - 1]);
    }
}

/// The converse direction: an index that is a match and has no earlier
/// match is the one `first_wifi_index` yields.
pub proof fn lemma_first_wifi_index_of_witness(types: Seq<u32>, n: int)
    requires
        0 <= n < types.len(),
        types[n] == WIFI_DEVICE_TYPE,
        forall|j: int| 0 <= j < n ==> types[j] != WIFI_DEVICE_TYPE,
    ensures
        first_wifi_index(types) == Some(n),
    decreases n,
{
    if n == 0 {
    } else {
        lemma_first_wifi_index_of_witness(types.drop_first(), n - 1);
    }
}

/// A list with no match has no first match.
pub proof fn lemma_first_wifi_index_absent(types: Seq<u32>)
    requires
        forall|j: int| 0 <= j < types.len() ==> types[j] != WIFI_DEVICE_TYPE,
    ensures
        first_wifi_index(types) == None::<int>,
    decreases types.len(),
{
    if types.len() > 0 {
        lemma_first_wifi_index_absent(types.drop_first());
    }
}

/// Devices past the first wireless one never matter: once a match exists
/// in a prefix, any types appended after it leave the selection unchanged.
pub proof fn lemma_first_wifi_index_ignores_tail(types: Seq<u32>, tail: Seq<u32>)
    requires
        first_wifi_index(types) is Some,
    ensures
        first_wifi_index(types + tail) == first_wifi_index(types),
    decreases types.len(),
{
    if types.len() == 0 {
    } else if types[0] == WIFI_DEVICE_TYPE {
        assert((types + tail)[0] == types[0]);
    } else {
        lemma_first_wifi_index_ignores_tail(types.drop_first(), tail);
        assert(types.drop_first() + tail =~= (types + tail).drop_first());
        assert((types + tail)[0] == types[0]);
    }
}

/// First step of a scan over `device_count` devices: query the device at
/// index zero, or report at once that there is none when the list is
/// empty.
pub fn scan_begin(device_count: usize) -> (step: ScanStep)
    ensures
        device_count == 0 ==> step == ScanStep::NotFound,
        device_count > 0 ==> step == ScanStep::Query(0usize),
{
    if device_count == 0 {
        ScanStep::NotFound
    } else {
        ScanStep::Query(0)
    }
}

/// Advances the scan after the device at `index` reported `device_type`:
/// the wireless code selects that device and ends the scan; anything else
/// moves on to the next device, or ends the scan when none is left.
pub fn scan_advance(device_count: usize, index: usize, device_type: u32) -> (step: ScanStep)
    requires
        index < device_count,
    ensures
        device_type == WIFI_DEVICE_TYPE ==> step == ScanStep::Found(index),
        device_type != WIFI_DEVICE_TYPE && index + 1 < device_count ==> step == ScanStep::Query(
            (index + 1) as usize,
        ),
        device_type != WIFI_DEVICE_TYPE && index + 1 == device_count ==> step
            == ScanStep::NotFound,
{
    if device_type == WIFI_DEVICE_TYPE {
        ScanStep::Found(index)
    } else if index + 1 < device_count {
        ScanStep::Query(index + 1)
    } else {
        ScanStep::NotFound
    }
}

/// Selects the device to use from a full list of device types: the first
/// one with the wireless code, or `None` when there is no such device.
pub fn select_wifi_device(device_types: &Vec<u32>) -> (selected: Option<usize>)
    ensures
        match selected {
            Some(i) => first_wifi_index(device_types@) == Some(i as int),
            None => first_wifi_index(device_types@) == None::<int>,
        },
{
    let mut index: usize = 0;
    while index < device_types.len()
        invariant
            index <= device_types.len(),
            forall|j: int| 0 <= j < index ==> device_types@[j] != WIFI_DEVICE_TYPE,
        decreases device_types.len() - index,
    {
        if device_types[index] == WIFI_DEVICE_TYPE {
            proof {
                lemma_first_wifi_index_of_witness(device_types@, index as int);
            }
            return Some(index);
        }
        index = index + 1;
    }
    proof {
        lemma_first_wifi_index_absent(device_types@);
    }
    None
}

/// What follows the device scan.
#[derive(Debug, PartialEq, Eq)]
pub enum NextAction {
    /// Build the request and issue the activation call for the device at
    /// this index.
    Activate(usize),
    /// End the attempt with this outcome; no activation call is owed.
    Done(Outcome),
}

/// Decides what follows the scan: a selected device leads to the one
/// activation call, and no selection ends the attempt with
/// `NoWifiDeviceFound` before any call is made.
pub fn after_scan(selected: Option<usize>) -> (next: NextAction)
    ensures
        selected matches Some(index) ==> next == NextAction::Activate(index),
        selected is None ==> next == NextAction::Done(Outcome::NoWifiDeviceFound),
{
    match selected {
        Some(index) => NextAction::Activate(index),
        None => NextAction::Done(Outcome::NoWifiDeviceFound),
    }
}

/// An attempt succeeds exactly when a wireless device exists and the one
/// activation call's reply is `Ok`. The premises are the contracts of the
/// scan, of [`after_scan`], and of [`activation_outcome`]; under them the
/// assembled outcome is `Succeeded` if and only if some device reports
/// the wireless code and the reply was `Ok` — in particular, never on the
/// no-device path.
pub proof fn lemma_succeeded_iff_wifi_device_and_ok_reply(
    types: Seq<u32>,
    reply: Result<(), String>,
    selected: Option<usize>,
    next: NextAction,
    outcome: Outcome,
)
    requires
        match selected {
            Some(i) => first_wifi_index(types) == Some(i as int),
            None => first_wifi_index(types) == None::<int>,
        },
        selected matches Some(index) ==> next == NextAction::Activate(index),
        selected is None ==> next == NextAction::Done(Outcome::NoWifiDeviceFound),
        next matches NextAction::Done(ended) ==> outcome == ended,
        next is Activate && reply is Ok ==> outcome == Outcome::Succeeded,
        next is Activate ==> (reply matches Err(detail) ==> outcome == Outcome::RemoteCallFailed(
            detail,
        )),
    ensures
        outcome == Outcome::Succeeded <==> first_wifi_index(types) is Some && reply is Ok,
{
}

/// The request sent by the activation call: the profile payload, the
/// selected device's object path, and the fixed placeholder path that
/// leaves the active-connection object to the service.
#[derive(Debug, PartialEq, Eq)]
pub struct ActivationRequest {
    pub profile: ConnectionProfile,
    pub device: String,
    pub specific_object: String,
}

/// Mathematical value of an [`ActivationRequest`].
#[verifier::ext_equal]
pub struct RequestView {
    pub profile: Seq<GroupView>,
    pub device: Seq<char>,
    pub specific_object: Seq<char>,
}

impl View for ActivationRequest {
    type V = RequestView;

    open spec fn view(&self) -> RequestView {
        RequestView {
            profile: self.profile@,
            device: self.device@,
            specific_object: self.specific_object@,
        }
    }
}

/// The request owed for an SSID's bytes, a password, and a device path:
/// the Wi-Fi profile payload, that device, and the placeholder path.
pub open spec fn activation_request_view(
    ssid_bytes: Seq<u8>,
    password: Seq<char>,
    device: Seq<char>,
) -> RequestView {
    RequestView {
        profile: wifi_profile_view(ssid_bytes, password),
        device: device,
        specific_object: "/"@,
    }
}

/// Builds the activation request for the given SSID, password, and
/// selected device path.
pub fn build_request(ssid: &str, password: &str, device: &str) -> (request: ActivationRequest)
    ensures
        request@ == activation_request_view(ssid.spec_bytes(), password@, device@),
{
    let request = ActivationRequest {
        profile: build_profile(ssid, password),
        device: device.to_owned(),
        specific_object: "/".to_owned(),
    };
    proof {
        assert(request@ =~~= activation_request_view(ssid.spec_bytes(), password@, device@));
    }
    request
}

/// Request construction is deterministic: it reads nothing but its
/// inputs, so two requests owed for the same SSID bytes, password, and
/// device are equal.
pub proof fn lemma_request_construction_deterministic(
    first: RequestView,
    second: RequestView,
    ssid_bytes: Seq<u8>,
    password: Seq<char>,
    device: Seq<char>,
)
    requires
        first == activation_request_view(ssid_bytes, password, device),
        second == activation_request_view(ssid_bytes, password, device),
    ensures
        first == second,
{
}

/// Classifies the activation call's reply: success is `Succeeded`, and a
/// failure is `RemoteCallFailed` carrying the service's error text
/// unchanged.
pub fn activation_outcome(result: Result<(), String>) -> (outcome: Outcome)
    ensures
        result is Ok ==> outcome == Outcome::Succeeded,
        result matches Err(detail) ==> outcome == Outcome::RemoteCallFailed(detail),
{
    match result {
        Ok(()) => Outcome::Succeeded,
        Err(detail) => Outcome::RemoteCallFailed(detail),
    }
}

/// Process exit code for an outcome: zero exactly on success, one on
/// every other outcome.
pub fn exit_code(outcome: &Outcome) -> (code: i32)
    ensures
        *outcome == Outcome::Succeeded ==> code == 0,
        *outcome != Outcome::Succeeded ==> code == 1,
{
    match outcome {
        Outcome::Succeeded => 0,
        Outcome::NoWifiDeviceFound => 1,
        Outcome::RemoteCallFailed(_) => 1,
    }
}

} // verus!
