use vstd::prelude::*;
use vstd::string::StringExecFns;

use crate::text::{decimal_string, spec_decimal};

verus! {

/// The portal's resolved configuration, as plain values: the command-line
/// and environment parsing that produces it lives with the embedding
/// program.
#[derive(Clone, Debug, PartialEq, Eq)]
pub struct Config {
    /// Wireless interface for the access point; `None` picks the first
    /// managed WiFi device.
    pub interface: Option<String>,
    /// Ethernet interface to reset to DHCP.
    pub ethernet_interface: String,
    /// SSID of the portal's WiFi network.
    pub ssid: String,
    /// WPA2 passphrase of the portal's WiFi network, if any.
    pub passphrase: Option<String>,
    /// Gateway address of the portal network, as text.
    pub gateway: String,
    /// DHCP range handed to the DHCP/DNS subprocess.
    pub dhcp_range: String,
    /// Listening port of the portal web server.
    pub listening_port: u16,
    /// Seconds without activity before giving up; zero disables the timer.
    pub activity_timeout: u64,
    /// Seconds before giving up regardless of activity; zero disables it.
    pub overall_timeout: u64,
}

/// Which optional producers to start beside the HTTP surface and the
/// signal watcher.
#[derive(Clone, Copy, Debug, PartialEq, Eq, Structural)]
pub struct ProducerPlan {
    pub start_activity_ticker: bool,
    pub start_overall_ticker: bool,
}

/// Decide which timers to start: each ticker runs exactly when its
/// configured timeout is nonzero, so with both timeouts at zero no timer
/// task is started at all.
pub fn producer_plan(c: &Config) -> (p: ProducerPlan)
    ensures
        p.start_activity_ticker == (c.activity_timeout != 0),
        p.start_overall_ticker == (c.overall_timeout != 0),
{
    ProducerPlan {
        start_activity_ticker: c.activity_timeout != 0,
        start_overall_ticker: c.overall_timeout != 0,
    }
}

/// The address the web server binds: the gateway address, a colon, and the
/// listening port in decimal.
pub fn listen_address(c: &Config) -> (r: String)
    ensures
        r@ == c.gateway@ + ":"@ + spec_decimal(c.listening_port as nat),
{
    let port = decimal_string(c.listening_port as u64);
    c.gateway.clone().concat(":").concat(port.as_str())
}

} // verus!
