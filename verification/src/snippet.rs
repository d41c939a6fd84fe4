//! The client-side fragment appended to every HTML document. It opens a
//! WebSocket back to the server and reloads the page on any message.

use vstd::prelude::*;
use crate::text::{bind_address, bind_address_text};

verus! {

/// Path of the endpoint that upgrades a request to a notification channel.
pub const WS_PATH: &'static str = "/live-server-ws";

/// Everything of the fragment that precedes the host.
pub const SNIPPET_HEAD: &'static str = "<script>\n    const ws = new WebSocket(\"ws://";

/// Everything of the fragment that follows the channel's path.
pub const SNIPPET_TAIL: &'static str =
    "\");\n    ws.onmessage = () => location.reload();\n</script>\n";

/// The payload of the one wire message, "reload": it is empty.
pub const RELOAD_PAYLOAD: &'static str = "";

/// Address of the notification channel: `ws://host:port/live-server-ws`
/// without the scheme, which the head of the fragment carries.
pub open spec fn channel_address_text(host: Seq<char>, port: u16) -> Seq<char> {
    bind_address_text(host, port) + WS_PATH@
}

/// The fragment for a server reachable at `host` and `port`.
pub open spec fn reload_snippet_text(host: Seq<char>, port: u16) -> Seq<char> {
    SNIPPET_HEAD@ + channel_address_text(host, port) + SNIPPET_TAIL@
}

/// Builds the fragment for a server reachable at `host` and `port`.
pub fn reload_snippet(host: &str, port: u16) -> (s: String)
    ensures
        s@ == reload_snippet_text(host@, port),
{
    let mut s = String::from_str(SNIPPET_HEAD);
    let address = bind_address(host, port);
    s.append(address.as_str());
    s.append(WS_PATH);
    s.append(SNIPPET_TAIL);
    s
}

} // verus!
