//! Decimal rendering of port numbers and the addresses built from a host and
//! a port.

use vstd::prelude::*;

verus! {

/// The ten decimal digits, in ascending order.
pub const DIGITS: &'static str = "0123456789";

/// The character that stands for a single decimal digit.
pub open spec fn digit_char(d: nat) -> char
    recommends
        d < 10,
{
    DIGITS@[d as int]
}

/// Decimal notation of `n`, most significant digit first, without leading
/// zeros (zero itself is `"0"`).
pub open spec fn decimal(n: nat) -> Seq<char>
    decreases n,
{
    if n < 10 {
        seq![digit_char(n)]
    } else {
        decimal(n / 10).push(digit_char(n % 10))
    }
}

fn digit_text(d: u16) -> (s: &'static str)
    requires
        d < 10,
    ensures
        s@ == seq![digit_char(d as nat)],
{
    proof {
        reveal_strlit("0123456789");
    }
    DIGITS.substring_ascii(d as usize, d as usize + 1)
}

/// Renders a port number in decimal.
pub fn port_text(port: u16) -> (s: String)
    ensures
        s@ == decimal(port as nat),
    decreases port,
{
    if port < 10 {
        String::from_str(digit_text(port))
    } else {
        let mut s = port_text(port / 10);
        s.append(digit_text(port % 10));
        s
    }
}

/// The address handed to the listener: `host:port`.
pub open spec fn bind_address_text(host: Seq<char>, port: u16) -> Seq<char> {
    host + seq![':'] + decimal(port as nat)
}

/// The URL announced once the server listens: `http://host:port/`.
pub open spec fn listen_url_text(host: Seq<char>, port: u16) -> Seq<char> {
    "http://"@ + bind_address_text(host, port) + seq!['/']
}

/// Builds the address the listener binds to.
pub fn bind_address(host: &str, port: u16) -> (s: String)
    ensures
        s@ == bind_address_text(host@, port),
{
    proof {
        reveal_strlit(":");
    }
    let mut s = String::from_str(host);
    s.append(":");
    let digits = port_text(port);
    s.append(digits.as_str());
    s
}

/// Builds the URL under which the server is reachable once it listens.
pub fn listen_url(host: &str, port: u16) -> (s: String)
    ensures
        s@ == listen_url_text(host@, port),
{
    proof {
        reveal_strlit("/");
    }
    let mut s = String::from_str("http://");
    let address = bind_address(host, port);
    s.append(address.as_str());
    s.append("/");
    s
}

} // verus!
