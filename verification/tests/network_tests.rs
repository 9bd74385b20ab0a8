use ember_network_connect::errors::AppError;
use ember_network_connect::network::{
    ap_profile_indices, connectivity_poll_step, ensure_ethernet_device, find_device,
    find_wifi_managed_device, get_network_info, get_network_security, get_networks,
    init_access_point_credentials, is_access_point_connection, is_same_ssid, is_wifi_connection,
    is_wired_connection, service_needs_start, service_start_result, wired_connection_indices,
    AccessPointCredentials, AccessPointInfo, Connectivity, ConnectionSettings, DeviceInfo,
    DeviceState, DeviceType, PollDecision, SecurityFlags, ServiceState,
};

fn flags(enterprise: bool, wpa2: bool, wpa: bool, wep: bool) -> SecurityFlags {
    SecurityFlags { enterprise, wpa2, wpa, wep }
}

#[test]
fn security_labels_follow_precedence() {
    assert_eq!(get_network_security(flags(true, true, true, true)), "enterprise");
    assert_eq!(get_network_security(flags(false, true, false, false)), "wpa");
    assert_eq!(get_network_security(flags(false, false, true, true)), "wpa");
    assert_eq!(get_network_security(flags(false, false, false, true)), "wep");
    assert_eq!(get_network_security(flags(false, false, false, false)), "none");
}

#[test]
fn credentials_follow_precedence() {
    let creds = init_access_point_credentials(flags(true, true, false, false), "user", "pw");
    assert_eq!(
        creds,
        AccessPointCredentials::Enterprise {
            identity: "user".to_string(),
            passphrase: "pw".to_string(),
        }
    );
    let creds = init_access_point_credentials(flags(false, false, true, true), "user", "pw");
    assert_eq!(creds, AccessPointCredentials::Wpa { passphrase: "pw".to_string() });
    let creds = init_access_point_credentials(flags(false, false, false, true), "user", "pw");
    assert_eq!(creds, AccessPointCredentials::Wep { passphrase: "pw".to_string() });
    let creds = init_access_point_credentials(flags(false, false, false, false), "user", "pw");
    assert_eq!(creds, AccessPointCredentials::Open);
}

#[test]
fn network_info_carries_ssid_and_label() {
    let ap = AccessPointInfo { ssid: "Lobby".to_string(), security: flags(false, true, false, false) };
    let n = get_network_info(&ap);
    assert_eq!(n.ssid, "Lobby");
    assert_eq!(n.security, "wpa");

    let aps = vec![
        ap,
        AccessPointInfo { ssid: "Guest".to_string(), security: flags(false, false, false, false) },
    ];
    let networks = get_networks(&aps);
    assert_eq!(networks.len(), 2);
    assert_eq!(networks[1].ssid, "Guest");
    assert_eq!(networks[1].security, "none");
}

fn conn(kind: &str, mode: &str, ssid: &str) -> ConnectionSettings {
    ConnectionSettings {
        kind: kind.to_string(),
        mode: mode.to_string(),
        ssid: ssid.as_bytes().to_vec(),
    }
}

#[test]
fn connection_kind_checks() {
    let wifi = conn("802-11-wireless", "infrastructure", "a");
    let ap = conn("802-11-wireless", "ap", "Portal");
    let wired = conn("802-3-ethernet", "", "");
    assert!(is_wifi_connection(&wifi));
    assert!(!is_wifi_connection(&wired));
    assert!(is_wired_connection(&wired));
    assert!(!is_wired_connection(&ap));
    assert!(is_access_point_connection(&ap));
    assert!(!is_access_point_connection(&wifi));
    assert!(is_same_ssid(&ap, "Portal"));
    assert!(!is_same_ssid(&ap, "Portal2"));
}

#[test]
fn ap_profiles_are_found_by_ssid() {
    let conns = vec![
        conn("802-3-ethernet", "", ""),
        conn("802-11-wireless", "ap", "Portal"),
        conn("802-11-wireless", "infrastructure", "Portal"),
        conn("802-11-wireless", "ap", "Elsewhere"),
        conn("802-11-wireless", "ap", "Portal"),
    ];
    assert_eq!(ap_profile_indices(&conns, "Portal"), vec![1, 4]);
    assert_eq!(ap_profile_indices(&conns, "Nowhere"), Vec::<usize>::new());
}

#[test]
fn dhcp_reset_deletes_every_wired_profile() {
    // Two pre-existing wired profiles: both are named for deletion, and the
    // plan does not depend on any single deletion succeeding.
    let conns = vec![
        conn("802-3-ethernet", "", ""),
        conn("802-11-wireless", "ap", "Portal"),
        conn("802-3-ethernet", "", ""),
    ];
    assert_eq!(wired_connection_indices(&conns), vec![0, 2]);
}

fn device(interface: &str, device_type: DeviceType, state: DeviceState) -> DeviceInfo {
    DeviceInfo { interface: interface.to_string(), device_type, state }
}

#[test]
fn wifi_device_search_takes_first_managed() {
    let devices = vec![
        device("eth0", DeviceType::Ethernet, DeviceState::Managed),
        device("wlan0", DeviceType::WiFi, DeviceState::Unmanaged),
        device("wlan1", DeviceType::WiFi, DeviceState::Managed),
        device("wlan2", DeviceType::WiFi, DeviceState::Managed),
    ];
    assert_eq!(find_wifi_managed_device(&devices), Some(2));
    assert_eq!(find_wifi_managed_device(&devices[..2].to_vec()), None);
}

#[test]
fn find_device_by_name_or_first_wifi() {
    let devices = vec![
        device("eth0", DeviceType::Ethernet, DeviceState::Managed),
        device("wlan0", DeviceType::WiFi, DeviceState::Managed),
    ];
    assert_eq!(find_device(&devices, &Some("eth0".to_string())), Ok(0));
    assert_eq!(
        find_device(&devices, &Some("wlan9".to_string())),
        Err(AppError::DeviceNotFound("wlan9".to_string()))
    );
    assert_eq!(find_device(&devices, &None), Ok(1));
    let wired_only = vec![device("eth0", DeviceType::Ethernet, DeviceState::Managed)];
    assert_eq!(find_device(&wired_only, &None), Err(AppError::NoWiFiDevice));
}

#[test]
fn ethernet_check_names_the_device() {
    let eth = device("eth0", DeviceType::Ethernet, DeviceState::Managed);
    let wifi = device("wlan0", DeviceType::WiFi, DeviceState::Managed);
    assert_eq!(ensure_ethernet_device(&eth), Ok(()));
    assert_eq!(
        ensure_ethernet_device(&wifi),
        Err(AppError::NotAnEthernetDevice("wlan0".to_string()))
    );
}

#[test]
fn connectivity_poll_decisions() {
    assert_eq!(connectivity_poll_step(Connectivity::Full, 0, 20), PollDecision::Connected);
    assert_eq!(connectivity_poll_step(Connectivity::Limited, 25, 20), PollDecision::Connected);
    assert_eq!(connectivity_poll_step(Connectivity::Portal, 20, 20), PollDecision::GaveUp);
    assert_eq!(connectivity_poll_step(Connectivity::Disconnected, 3, 20), PollDecision::Wait);
}

#[test]
fn service_start_decisions() {
    assert!(!service_needs_start(&None));
    assert!(!service_needs_start(&Some(ServiceState::Active)));
    assert!(service_needs_start(&Some(ServiceState::Inactive)));
    assert_eq!(service_start_result(ServiceState::Active), Ok(()));
    assert_eq!(
        service_start_result(ServiceState::Inactive),
        Err(AppError::StartActiveNetworkManager)
    );
}
