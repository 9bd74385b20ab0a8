use vstd::prelude::*;
use vstd::string::StringExecFns;

verus! {

/// The argument list the DHCP/DNS subprocess is started with: answer every
/// DNS name with the gateway, serve the configured DHCP range with the
/// gateway as router, bind only the portal interface, stay in the
/// foreground, and read no outside configuration.  The embedding program
/// spawns the subprocess with exactly these arguments.
pub fn dnsmasq_args(gateway: &String, dhcp_range: &String, interface: &String) -> (args: Vec<
    String,
>)
    ensures
        args@.len() == 9,
        args@[0]@ == "--address=/#/"@ + gateway@,
        args@[1]@ == "--dhcp-range="@ + dhcp_range@,
        args@[2]@ == "--dhcp-option=option:router,"@ + gateway@,
        args@[3]@ == "--interface="@ + interface@,
        args@[4]@ == "--keep-in-foreground"@,
        args@[5]@ == "--bind-interfaces"@,
        args@[6]@ == "--except-interface=lo"@,
        args@[7]@ == "--conf-file"@,
        args@[8]@ == "--no-hosts"@,
{
    let mut args: Vec<String> = Vec::new();
    args.push(String::from_str("--address=/#/").concat(gateway.as_str()));
    args.push(String::from_str("--dhcp-range=").concat(dhcp_range.as_str()));
    args.push(String::from_str("--dhcp-option=option:router,").concat(gateway.as_str()));
    args.push(String::from_str("--interface=").concat(interface.as_str()));
    args.push(String::from_str("--keep-in-foreground"));
    args.push(String::from_str("--bind-interfaces"));
    args.push(String::from_str("--except-interface=lo"));
    args.push(String::from_str("--conf-file"));
    args.push(String::from_str("--no-hosts"));
    args
}

} // verus!
