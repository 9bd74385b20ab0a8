use vstd::prelude::*;
use vstd::string::StrSliceExecFns;
use vstd::string::StringSliceAdditionalSpecFns;

use crate::errors::AppError;

verus! {

/// An event consumed by the command orchestrator.  Exactly one producer
/// emits each variant: the HTTP handlers send `Activate` and `Reset`, the
/// activity ticker sends `Timeout`, the overall ticker sends
/// `OverallTimeout`, and the signal watcher sends `Exit`.
#[derive(Clone, Copy, Debug, PartialEq, Eq, Structural)]
pub enum NetworkCommand {
    Timeout,
    OverallTimeout,
    Exit,
    Reset,
    Activate,
}

/// A WiFi network as reported to clients: its SSID and a label for its
/// security class.
#[derive(Clone, Debug, PartialEq, Eq)]
pub struct Network {
    pub ssid: String,
    pub security: String,
}

/// A reply sent back to an HTTP handler.
#[derive(Debug)]
pub enum NetworkCommandResponse {
    Networks(Vec<Network>),
    Timer(u64),
}

/// The security capabilities a scanned access point advertises.
#[derive(Clone, Copy, Debug, PartialEq, Eq, Structural)]
pub struct SecurityFlags {
    pub enterprise: bool,
    pub wpa2: bool,
    pub wpa: bool,
    pub wep: bool,
}

/// The credentials to present when connecting to an access point, selected
/// once from its advertised capabilities.
#[derive(Clone, Debug, PartialEq, Eq)]
pub enum AccessPointCredentials {
    Enterprise { identity: String, passphrase: String },
    Wpa { passphrase: String },
    Wep { passphrase: String },
    Open,
}

/// The label shown for an access point's security class: enterprise
/// security wins over WPA/WPA2, which wins over WEP; anything else is open.
pub open spec fn spec_security_label(f: SecurityFlags) -> Seq<char> {
    if f.enterprise {
        "enterprise"@
    } else if f.wpa2 || f.wpa {
        "wpa"@
    } else if f.wep {
        "wep"@
    } else {
        "none"@
    }
}

/// Label an access point's security class for display.
pub fn get_network_security(f: SecurityFlags) -> (label: &'static str)
    ensures
        label@ == spec_security_label(f),
{
    if f.enterprise {
        "enterprise"
    } else if f.wpa2 || f.wpa {
        "wpa"
    } else if f.wep {
        "wep"
    } else {
        "none"
    }
}

/// A scanned access point, reduced to what the portal logic reads.
#[derive(Clone, Debug, PartialEq, Eq)]
pub struct AccessPointInfo {
    pub ssid: String,
    pub security: SecurityFlags,
}

/// Describe one scanned access point for a client.
pub fn get_network_info(ap: &AccessPointInfo) -> (n: Network)
    ensures
        n.ssid == ap.ssid,
        n.security@ == spec_security_label(ap.security),
{
    Network { ssid: ap.ssid.clone(), security: get_network_security(ap.security).to_owned() }
}

/// Describe every scanned access point for a client, in scan order.
pub fn get_networks(access_points: &Vec<AccessPointInfo>) -> (r: Vec<Network>)
    ensures
        r@.len() == access_points@.len(),
        forall|i: int|
            0 <= i < r@.len() ==> r@[i].ssid == access_points@[i].ssid && r@[i].security@
                == spec_security_label(access_points@[i].security),
{
    let mut r: Vec<Network> = Vec::new();
    let mut k: usize = 0;
    while k < access_points.len()
        invariant
            k <= access_points@.len(),
            r@.len() == k,
            forall|i: int|
                0 <= i < k ==> r@[i].ssid == access_points@[i].ssid && r@[i].security@
                    == spec_security_label(access_points@[i].security),
        decreases access_points@.len() - k,
    {
        r.push(get_network_info(&access_points[k]));
        k = k + 1;
    }
    r
}

/// Pick the credentials owed to an access point's advertised capabilities:
/// enterprise security first, then WPA/WPA2, then WEP, else open.
pub fn init_access_point_credentials(
    security: SecurityFlags,
    identity: &str,
    passphrase: &str,
) -> (creds: AccessPointCredentials)
    ensures
        security.enterprise ==> (creds matches AccessPointCredentials::Enterprise {
            identity: id,
            passphrase: pw,
        } && id@ == identity@ && pw@ == passphrase@),
        !security.enterprise && (security.wpa2 || security.wpa) ==> (
        creds matches AccessPointCredentials::Wpa { passphrase: pw } && pw@ == passphrase@),
        !security.enterprise && !security.wpa2 && !security.wpa && security.wep ==> (
        creds matches AccessPointCredentials::Wep { passphrase: pw } && pw@ == passphrase@),
        !security.enterprise && !security.wpa2 && !security.wpa && !security.wep ==> creds
            is Open,
{
    if security.enterprise {
        AccessPointCredentials::Enterprise {
            identity: identity.to_owned(),
            passphrase: passphrase.to_owned(),
        }
    } else if security.wpa2 || security.wpa {
        AccessPointCredentials::Wpa { passphrase: passphrase.to_owned() }
    } else if security.wep {
        AccessPointCredentials::Wep { passphrase: passphrase.to_owned() }
    } else {
        AccessPointCredentials::Open
    }
}

/// A stored connection profile, reduced to what the portal logic reads: its
/// kind, its mode, and its SSID (raw bytes, since an SSID need not be valid
/// UTF-8).
#[derive(Clone, Debug, PartialEq, Eq)]
pub struct ConnectionSettings {
    pub kind: String,
    pub mode: String,
    pub ssid: Vec<u8>,
}

pub open spec fn spec_is_wifi(c: ConnectionSettings) -> bool {
    c.kind@ == "802-11-wireless"@
}

pub open spec fn spec_is_wired(c: ConnectionSettings) -> bool {
    c.kind@ == "802-3-ethernet"@
}

pub open spec fn spec_is_access_point(c: ConnectionSettings) -> bool {
    spec_is_wifi(c) && c.mode@ == "ap"@
}

/// Whether a profile is a wireless connection.
pub fn is_wifi_connection(c: &ConnectionSettings) -> (r: bool)
    ensures
        r == spec_is_wifi(*c),
{
    c.kind == "802-11-wireless".to_owned()
}

/// Whether a profile is a wired (Ethernet) connection.
pub fn is_wired_connection(c: &ConnectionSettings) -> (r: bool)
    ensures
        r == spec_is_wired(*c),
{
    c.kind == "802-3-ethernet".to_owned()
}

/// Whether a profile is a wireless connection in access-point mode.
pub fn is_access_point_connection(c: &ConnectionSettings) -> (r: bool)
    ensures
        r == spec_is_access_point(*c),
{
    is_wifi_connection(c) && c.mode == "ap".to_owned()
}

/// Compare two byte strings for equality.
fn byte_vec_eq(a: &Vec<u8>, b: &Vec<u8>) -> (r: bool)
    ensures
        r == (a@ == b@),
{
    if a.len() != b.len() {
        assert(a@ != b@);
        return false;
    }
    let mut k: usize = 0;
    while k < a.len()
        invariant
            k <= a@.len(),
            a@.len() == b@.len(),
            forall|i: int| 0 <= i < k ==> a@[i] == b@[i],
        decreases a@.len() - k,
    {
        if a[k] != b[k] {
            return false;
        }
        k = k + 1;
    }
    proof {
        assert(a@ =~= b@);
    }
    true
}

/// Whether a profile's SSID equals the given one, byte for byte.  A stored
/// SSID can be arbitrary bytes; it equals a UTF-8 name exactly when the raw
/// bytes agree.
pub fn is_same_ssid(c: &ConnectionSettings, ssid: &str) -> (r: bool)
    ensures
        r == (c.ssid@ == ssid.spec_bytes()),
{
    let expected = ssid.as_bytes_vec();
    byte_vec_eq(&c.ssid, &expected)
}

/// The profiles a previous portal run may have left behind: every stored
/// access-point profile carrying the portal's own SSID, by position.
pub fn ap_profile_indices(connections: &Vec<ConnectionSettings>, ssid: &str) -> (r: Vec<usize>)
    ensures
        forall|k: int|
            0 <= k < r@.len() ==> r@[k] < connections@.len() && spec_is_access_point(
                connections@[r@[k] as int],
            ) && connections@[r@[k] as int].ssid@ == ssid.spec_bytes(),
        forall|i: int|
            0 <= i < connections@.len() && spec_is_access_point(connections@[i])
                && connections@[i].ssid@ == ssid.spec_bytes() ==> r@.contains(i as usize),
        forall|k: int| #![trigger r@[k]] 0 <= k < r@.len() - 1 ==> r@[k] < r@[k + 1],
{
    let mut r: Vec<usize> = Vec::new();
    let mut i: usize = 0;
    while i < connections.len()
        invariant
            i <= connections@.len(),
            forall|k: int|
                0 <= k < r@.len() ==> r@[k] < i && spec_is_access_point(
                    connections@[r@[k] as int],
                ) && connections@[r@[k] as int].ssid@ == ssid.spec_bytes(),
            forall|j: int|
                0 <= j < i && spec_is_access_point(connections@[j]) && connections@[j].ssid@
                    == ssid.spec_bytes() ==> r@.contains(j as usize),
            forall|k: int| #![trigger r@[k]] 0 <= k < r@.len() - 1 ==> r@[k] < r@[k + 1],
        decreases connections@.len() - i,
    {
        if is_access_point_connection(&connections[i]) && is_same_ssid(&connections[i], ssid) {
            let ghost r_old = r@;
            r.push(i);
            proof {
                assert forall|j: int|
                    0 <= j < i + 1 && spec_is_access_point(connections@[j]) && connections@[j].ssid@
                        == ssid.spec_bytes() implies r@.contains(j as usize) by {
                    if j == i as int {
                        assert(r@[r@.len() - 1] == i);
                    } else {
                        assert(r_old.contains(j as usize));
                        let k = choose|k: int| 0 <= k < r_old.len() && r_old[k] == j as usize;
                        assert(r@[k] == j as usize);
                    }
                }
            }
        }
        i = i + 1;
    }
    r
}

/// The profiles the DHCP reset must delete: every stored wired profile, by
/// position.
pub fn wired_connection_indices(connections: &Vec<ConnectionSettings>) -> (r: Vec<usize>)
    ensures
        forall|k: int|
            0 <= k < r@.len() ==> r@[k] < connections@.len() && spec_is_wired(
                connections@[r@[k] as int],
            ),
        forall|i: int|
            0 <= i < connections@.len() && spec_is_wired(connections@[i]) ==> r@.contains(
                i as usize,
            ),
        forall|k: int| #![trigger r@[k]] 0 <= k < r@.len() - 1 ==> r@[k] < r@[k + 1],
{
    let mut r: Vec<usize> = Vec::new();
    let mut i: usize = 0;
    while i < connections.len()
        invariant
            i <= connections@.len(),
            forall|k: int|
                0 <= k < r@.len() ==> r@[k] < i && spec_is_wired(connections@[r@[k] as int]),
            forall|j: int|
                0 <= j < i && spec_is_wired(connections@[j]) ==> r@.contains(j as usize),
            forall|k: int| #![trigger r@[k]] 0 <= k < r@.len() - 1 ==> r@[k] < r@[k + 1],
        decreases connections@.len() - i,
    {
        if is_wired_connection(&connections[i]) {
            let ghost r_old = r@;
            r.push(i);
            proof {
                assert forall|j: int|
                    0 <= j < i + 1 && spec_is_wired(connections@[j]) implies r@.contains(
                    j as usize,
                ) by {
                    if j == i as int {
                        assert(r@[r@.len() - 1] == i);
                    } else {
                        assert(r_old.contains(j as usize));
                        let k = choose|k: int| 0 <= k < r_old.len() && r_old[k] == j as usize;
                        assert(r@[k] == j as usize);
                    }
                }
            }
        }
        i = i + 1;
    }
    r
}

/// What a network device is, as far as the portal cares.
#[derive(Clone, Copy, Debug, PartialEq, Eq, Structural)]
pub enum DeviceType {
    WiFi,
    Ethernet,
    Other,
}

/// Whether the system service manages a device.  `Managed` stands for every
/// state but unmanaged.
#[derive(Clone, Copy, Debug, PartialEq, Eq, Structural)]
pub enum DeviceState {
    Unmanaged,
    Managed,
}

/// A network device, reduced to what the portal logic reads.
#[derive(Clone, Debug, PartialEq, Eq)]
pub struct DeviceInfo {
    pub interface: String,
    pub device_type: DeviceType,
    pub state: DeviceState,
}

/// A device the portal may run its access point on: a managed WiFi device.
pub open spec fn spec_is_wifi_managed(d: DeviceInfo) -> bool {
    d.device_type is WiFi && !(d.state is Unmanaged)
}

/// The first managed WiFi device, if any.
pub fn find_wifi_managed_device(devices: &Vec<DeviceInfo>) -> (r: Option<usize>)
    ensures
        match r {
            Some(i) => i < devices@.len() && spec_is_wifi_managed(devices@[i as int]) && forall|
                j: int,
            | 0 <= j < i ==> !spec_is_wifi_managed(devices@[j]),
            None => forall|j: int| 0 <= j < devices@.len() ==> !spec_is_wifi_managed(devices@[j]),
        },
{
    let mut i: usize = 0;
    while i < devices.len()
        invariant
            i <= devices@.len(),
            forall|j: int| 0 <= j < i ==> !spec_is_wifi_managed(devices@[j]),
        decreases devices@.len() - i,
    {
        let d = &devices[i];
        let is_wifi = match d.device_type {
            DeviceType::WiFi => true,
            _ => false,
        };
        let is_managed = match d.state {
            DeviceState::Unmanaged => false,
            DeviceState::Managed => true,
        };
        if is_wifi && is_managed {
            return Some(i);
        }
        i = i + 1;
    }
    None
}

/// Resolve the device the portal must use.  With an interface name, the
/// first device of that name is owed, and `DeviceNotFound` names the
/// interface when no device carries it; without one, the first managed WiFi
/// device is owed, and the search fails with `NoWiFiDevice` when there is
/// none.
pub fn find_device(devices: &Vec<DeviceInfo>, interface: &Option<String>) -> (r: Result<
    usize,
    AppError,
>)
    ensures
        match *interface {
            Some(ref name) => match r {
                Ok(i) => i < devices@.len() && devices@[i as int].interface@ == name@ && forall|
                    j: int,
                | 0 <= j < i ==> devices@[j].interface@ != name@,
                Err(e) => (e matches AppError::DeviceNotFound(n) && n@ == name@) && forall|j: int|
                    0 <= j < devices@.len() ==> devices@[j].interface@ != name@,
            },
            None => match r {
                Ok(i) => i < devices@.len() && spec_is_wifi_managed(devices@[i as int]) && forall|
                    j: int,
                | 0 <= j < i ==> !spec_is_wifi_managed(devices@[j]),
                Err(e) => e == AppError::NoWiFiDevice && forall|j: int|
                    0 <= j < devices@.len() ==> !spec_is_wifi_managed(devices@[j]),
            },
        },
{
    match interface.as_ref() {
        Some(name) => {
            let mut i: usize = 0;
            while i < devices.len()
                invariant
                    i <= devices@.len(),
                    *interface matches Some(given) && given@ == name@,
                    forall|j: int| 0 <= j < i ==> devices@[j].interface@ != name@,
                decreases devices@.len() - i,
            {
                if devices[i].interface == *name {
                    return Ok(i);
                }
                i = i + 1;
            }
            Err(AppError::DeviceNotFound(name.clone()))
        },
        None => match find_wifi_managed_device(devices) {
            Some(i) => Ok(i),
            None => Err(AppError::NoWiFiDevice),
        },
    }
}

/// Check that the device picked for the DHCP reset really is an Ethernet
/// device; fail with `NotAnEthernetDevice`, naming it, otherwise.
pub fn ensure_ethernet_device(device: &DeviceInfo) -> (r: Result<(), AppError>)
    ensures
        device.device_type is Ethernet <==> r is Ok,
        !(device.device_type is Ethernet) ==> (r matches Err(e)
            && e matches AppError::NotAnEthernetDevice(n) && n@ == device.interface@),
{
    match device.device_type {
        DeviceType::Ethernet => Ok(()),
        _ => Err(AppError::NotAnEthernetDevice(device.interface.clone())),
    }
}

/// What the system reports about reachability of the wider network.
#[derive(Clone, Copy, Debug, PartialEq, Eq, Structural)]
pub enum Connectivity {
    Full,
    Limited,
    Portal,
    Disconnected,
    Unknown,
}

/// One decision of the connectivity poll loop.
#[derive(Clone, Copy, Debug, PartialEq, Eq, Structural)]
pub enum PollDecision {
    /// Connectivity is established: stop polling and report success.
    Connected,
    /// The deadline has passed without connectivity: stop and report failure.
    GaveUp,
    /// Keep waiting: sleep one second and poll again.
    Wait,
}

/// Decide one round of waiting for connectivity: full or limited
/// connectivity ends the wait successfully; otherwise the wait ends
/// unsuccessfully once `elapsed` reaches the timeout, and goes on below it.
pub fn connectivity_poll_step(c: Connectivity, elapsed: u64, timeout: u64) -> (d: PollDecision)
    ensures
        (c is Full || c is Limited) ==> d is Connected,
        !(c is Full || c is Limited) && elapsed >= timeout ==> d is GaveUp,
        !(c is Full || c is Limited) && elapsed < timeout ==> d is Wait,
{
    match c {
        Connectivity::Full => PollDecision::Connected,
        Connectivity::Limited => PollDecision::Connected,
        _ => {
            if elapsed >= timeout {
                PollDecision::GaveUp
            } else {
                PollDecision::Wait
            }
        },
    }
}

/// The reported state of the system network service.
#[derive(Clone, Copy, Debug, PartialEq, Eq, Structural)]
pub enum ServiceState {
    Active,
    Inactive,
}

/// Whether the network service must be started first: only when its state
/// could be read and is not active.  An unreadable state is left alone.
pub fn service_needs_start(state: &Option<ServiceState>) -> (r: bool)
    ensures
        r == (*state matches Some(s) && !(s is Active)),
{
    match state {
        Some(ServiceState::Active) => false,
        Some(_) => true,
        None => false,
    }
}

/// Judge the state the service reached after being started: anything but
/// active is the `StartActiveNetworkManager` failure.
pub fn service_start_result(state: ServiceState) -> (r: Result<(), AppError>)
    ensures
        state is Active <==> r is Ok,
        !(state is Active) ==> r == Err::<(), AppError>(AppError::StartActiveNetworkManager),
{
    match state {
        ServiceState::Active => Ok(()),
        _ => Err(AppError::StartActiveNetworkManager),
    }
}

} // verus!
