use ember_network_connect::config::{listen_address, producer_plan, Config};
use ember_network_connect::dnsmasq::dnsmasq_args;
use ember_network_connect::errors::{exit_code, AppError};
use ember_network_connect::exit::{block_exit_signals, exit_signals, ExitSignal};
use ember_network_connect::privileges::{require_root, root_requirement};

fn config(activity_timeout: u64, overall_timeout: u64) -> Config {
    Config {
        interface: None,
        ethernet_interface: "eth0".to_string(),
        ssid: "WiFi Connect".to_string(),
        passphrase: None,
        gateway: "192.168.42.1".to_string(),
        dhcp_range: "192.168.42.2,192.168.42.254".to_string(),
        listening_port: 80,
        activity_timeout,
        overall_timeout,
    }
}

#[test]
fn exit_codes_are_distinct_per_category() {
    assert_eq!(exit_code(&AppError::Dnsmasq("x".to_string())), 3);
    assert_eq!(exit_code(&AppError::ChannelClosed), 7);
    assert_eq!(exit_code(&AppError::DeviceNotFound("eth9".to_string())), 10);
    assert_eq!(exit_code(&AppError::NotAWiFiDevice("eth0".to_string())), 11);
    assert_eq!(exit_code(&AppError::NoWiFiDevice), 12);
    assert_eq!(exit_code(&AppError::CreateCaptivePortal("x".to_string())), 14);
    assert_eq!(exit_code(&AppError::StopAccessPoint("x".to_string())), 15);
    assert_eq!(exit_code(&AppError::DeleteConnection("x".to_string())), 16);
    assert_eq!(
        exit_code(&AppError::StartHttpServer {
            address: "192.168.42.1:80".to_string(),
            reason: "busy".to_string(),
        }),
        17
    );
    assert_eq!(exit_code(&AppError::StartActiveNetworkManager), 18);
    assert_eq!(exit_code(&AppError::StartNetworkManager("x".to_string())), 19);
    assert_eq!(exit_code(&AppError::BlockExitSignals("x".to_string())), 21);
    assert_eq!(exit_code(&AppError::TrapExitSignals("x".to_string())), 22);
    assert_eq!(exit_code(&AppError::RootPrivilegesRequired("p".to_string())), 23);
    assert_eq!(exit_code(&AppError::NotAnEthernetDevice("wlan0".to_string())), 24);
    assert_eq!(exit_code(&AppError::SetDhcp("x".to_string())), 25);
    // The wrapped system errors share the generic code.
    assert_eq!(exit_code(&AppError::Io("x".to_string())), 1);
    assert_eq!(exit_code(&AppError::Nix("x".to_string())), 1);
    assert_eq!(exit_code(&AppError::NetworkManager("x".to_string())), 1);
}

#[test]
fn no_timers_start_when_both_timeouts_are_zero() {
    let plan = producer_plan(&config(0, 0));
    assert!(!plan.start_activity_ticker);
    assert!(!plan.start_overall_ticker);

    let plan = producer_plan(&config(20, 0));
    assert!(plan.start_activity_ticker);
    assert!(!plan.start_overall_ticker);

    let plan = producer_plan(&config(0, 600));
    assert!(!plan.start_activity_ticker);
    assert!(plan.start_overall_ticker);
}

#[test]
fn listen_address_joins_gateway_and_port() {
    assert_eq!(listen_address(&config(0, 0)), "192.168.42.1:80");
    let mut c = config(0, 0);
    c.listening_port = 8080;
    assert_eq!(listen_address(&c), "192.168.42.1:8080");
}

#[test]
fn dnsmasq_arguments_are_exact() {
    let args = dnsmasq_args(
        &"192.168.42.1".to_string(),
        &"192.168.42.2,192.168.42.254".to_string(),
        &"wlan0".to_string(),
    );
    assert_eq!(
        args,
        vec![
            "--address=/#/192.168.42.1".to_string(),
            "--dhcp-range=192.168.42.2,192.168.42.254".to_string(),
            "--dhcp-option=option:router,192.168.42.1".to_string(),
            "--interface=wlan0".to_string(),
            "--keep-in-foreground".to_string(),
            "--bind-interfaces".to_string(),
            "--except-interface=lo".to_string(),
            "--conf-file".to_string(),
            "--no-hosts".to_string(),
        ]
    );
}

#[test]
fn exit_signal_list_is_complete() {
    assert_eq!(
        exit_signals(),
        vec![
            ExitSignal::Interrupt,
            ExitSignal::Quit,
            ExitSignal::Terminate,
            ExitSignal::Hangup,
        ]
    );
}

#[test]
fn blocking_exit_signals_succeeds_in_this_process() {
    assert!(block_exit_signals().is_ok());
}

#[test]
fn root_requirement_names_the_program() {
    assert_eq!(root_requirement(true, "portal"), Ok(()));
    assert_eq!(
        root_requirement(false, "portal"),
        Err(AppError::RootPrivilegesRequired("portal".to_string()))
    );
    // Whatever the environment, the only possible failure names the program.
    match require_root("portal") {
        Ok(()) => {}
        Err(e) => assert_eq!(e, AppError::RootPrivilegesRequired("portal".to_string())),
    }
}
