use vstd::prelude::*;
use vstd::string::StringExecFns;

use crate::network::NetworkCommand;
use crate::text::{decimal_string, spec_decimal};

verus! {

/// A response as the control surface decides it; the embedding web server
/// turns it into a real one.
#[derive(Clone, Debug, PartialEq, Eq)]
pub struct HttpResponse {
    pub status: u16,
    pub body: String,
}

/// The routes the portal serves.  Anything that is not one of the two
/// control endpoints is served as a static UI asset.
#[derive(Clone, Copy, Debug, PartialEq, Eq, Structural)]
pub enum Route {
    GetTimer,
    ResetDhcp,
    Asset,
}

/// Which route a request's method and path select: the two control
/// endpoints by exact match, everything else the static UI.
pub open spec fn spec_route(method: Seq<char>, path: Seq<char>) -> Route {
    if method == "GET"@ && path == "/get_timer"@ {
        Route::GetTimer
    } else if method == "POST"@ && path == "/reset_dhcp"@ {
        Route::ResetDhcp
    } else {
        Route::Asset
    }
}

/// Dispatch a request to its route.
pub fn dispatch(method: &String, path: &String) -> (r: Route)
    ensures
        r == spec_route(method@, path@),
{
    if *method == "GET".to_owned() && *path == "/get_timer".to_owned() {
        Route::GetTimer
    } else if *method == "POST".to_owned() && *path == "/reset_dhcp".to_owned() {
        Route::ResetDhcp
    } else {
        Route::Asset
    }
}

/// The captive-portal redirect check, applied to every inbound request
/// before dispatch: a request whose declared host is not the gateway
/// address is answered with a temporary redirect to the portal's own root,
/// so a probing client OS shows the portal page.
pub fn redirect_target(host: &String, gateway: &String) -> (r: Option<String>)
    ensures
        host@ == gateway@ ==> r is None,
        host@ != gateway@ ==> (r matches Some(loc) && loc@ == "http://"@ + gateway@ + "/"@),
{
    if *host == *gateway {
        None
    } else {
        let url = String::from_str("http://").concat(gateway.as_str()).concat("/");
        Some(url)
    }
}

/// The status of the temporary redirect the portal answers with.
pub const REDIRECT_STATUS: u16 = 307;

/// The command each route forwards to the orchestrator before answering:
/// reading the timer marks user activity, the reset endpoint requests the
/// DHCP reset, and asset requests forward nothing.
pub fn route_command(r: Route) -> (c: Option<NetworkCommand>)
    ensures
        r is GetTimer ==> c == Some(NetworkCommand::Activate),
        r is ResetDhcp ==> c == Some(NetworkCommand::Reset),
        r is Asset ==> c is None,
{
    match r {
        Route::GetTimer => Some(NetworkCommand::Activate),
        Route::ResetDhcp => Some(NetworkCommand::Reset),
        Route::Asset => None,
    }
}

/// The answer to `GET /get_timer`: when the `Activate` command reached the
/// orchestrator, the current countdown as decimal text with status 200;
/// when the channel is gone, status 500 with an empty body.
pub fn get_timer_response(sent: bool, remaining: u64) -> (r: HttpResponse)
    ensures
        sent ==> r.status == 200 && r.body@ == spec_decimal(remaining as nat),
        !sent ==> r.status == 500 && r.body@ == Seq::<char>::empty(),
{
    if sent {
        HttpResponse { status: 200, body: decimal_string(remaining) }
    } else {
        HttpResponse { status: 500, body: String::new() }
    }
}

/// The answer to `POST /reset_dhcp`: status 200 when the `Reset` command
/// reached the orchestrator, else status 500; the body is empty either way.
pub fn reset_dhcp_response(sent: bool) -> (r: HttpResponse)
    ensures
        sent ==> r.status == 200,
        !sent ==> r.status == 500,
        r.body@ == Seq::<char>::empty(),
{
    HttpResponse { status: if sent { 200 } else { 500 }, body: String::new() }
}

} // verus!
