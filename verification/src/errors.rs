use vstd::prelude::*;

verus! {

/// Every way the portal can fail, from setup through teardown.
///
/// Variants that stand for an underlying failure of the operating system or
/// of a system service carry the reported reason as plain text.
#[derive(Clone, Debug, PartialEq, Eq)]
pub enum AppError {
    Io(String),
    Nix(String),
    NetworkManager(String),
    DeviceNotFound(String),
    NotAWiFiDevice(String),
    NotAnEthernetDevice(String),
    NoWiFiDevice,
    CreateCaptivePortal(String),
    StopAccessPoint(String),
    DeleteConnection(String),
    StartHttpServer { address: String, reason: String },
    StartActiveNetworkManager,
    StartNetworkManager(String),
    Dnsmasq(String),
    BlockExitSignals(String),
    TrapExitSignals(String),
    RootPrivilegesRequired(String),
    ChannelClosed,
    SetDhcp(String),
}

/// The process exit code reserved for each failure category; success is `0`,
/// and every failure maps to a distinct non-zero code except the three
/// wrapped system errors, which share the generic code `1`.
pub open spec fn spec_exit_code(e: AppError) -> i32 {
    match e {
        AppError::Dnsmasq(_) => 3,
        AppError::ChannelClosed => 7,
        AppError::DeviceNotFound(_) => 10,
        AppError::NotAWiFiDevice(_) => 11,
        AppError::NoWiFiDevice => 12,
        AppError::CreateCaptivePortal(_) => 14,
        AppError::StopAccessPoint(_) => 15,
        AppError::DeleteConnection(_) => 16,
        AppError::StartHttpServer { .. } => 17,
        AppError::StartActiveNetworkManager => 18,
        AppError::StartNetworkManager(_) => 19,
        AppError::BlockExitSignals(_) => 21,
        AppError::TrapExitSignals(_) => 22,
        AppError::RootPrivilegesRequired(_) => 23,
        AppError::NotAnEthernetDevice(_) => 24,
        AppError::SetDhcp(_) => 25,
        _ => 1,
    }
}

/// Map an error to the process exit code reserved for its category.
pub fn exit_code(e: &AppError) -> (code: i32)
    ensures
        code == spec_exit_code(*e),
{
    match e {
        AppError::Dnsmasq(_) => 3,
        AppError::ChannelClosed => 7,
        AppError::DeviceNotFound(_) => 10,
        AppError::NotAWiFiDevice(_) => 11,
        AppError::NoWiFiDevice => 12,
        AppError::CreateCaptivePortal(_) => 14,
        AppError::StopAccessPoint(_) => 15,
        AppError::DeleteConnection(_) => 16,
        AppError::StartHttpServer { .. } => 17,
        AppError::StartActiveNetworkManager => 18,
        AppError::StartNetworkManager(_) => 19,
        AppError::BlockExitSignals(_) => 21,
        AppError::TrapExitSignals(_) => 22,
        AppError::RootPrivilegesRequired(_) => 23,
        AppError::NotAnEthernetDevice(_) => 24,
        AppError::SetDhcp(_) => 25,
        _ => 1,
    }
}

} // verus!
