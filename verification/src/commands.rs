//! The status command's view of the server list.
//!
//! The host's `ldap.status` command reports, per server, the host name, a
//! `healthy` / `unhealthy` word and, when unhealthy, the recorded error.
//! Rendering into the host's reply is the caller's; the fields stand here.

use vstd::prelude::*;

use crate::server::{VkLdapServer, VkLdapServerStatus};
use crate::text::push_char;

verus! {

/// The character of one decimal digit.
pub open spec fn digit_char(d: nat) -> char {
    ((d + 48) as u8) as char
}

/// The decimal form of a number, most significant digit first, no leading
/// zeros (a zero is `0`).
pub open spec fn dec_str(n: nat) -> Seq<char>
    decreases n,
{
    if n < 10 {
        seq![digit_char(n)]
    } else {
        dec_str(n / 10).push(digit_char(n % 10))
    }
}

/// Renders a number in decimal.
fn u64_to_decimal(n: u64) -> (r: String)
    ensures
        r@ == dec_str(n as nat),
    decreases n,
{
    let d: u8 = (n % 10) as u8;
    let c: char = (48 + d) as char;
    if n < 10 {
        let mut s = String::new();
        push_char(&mut s, c);
        proof {
            assert(s@ =~= seq![digit_char(n as nat)]);
        }
        s
    } else {
        let mut s = u64_to_decimal(n / 10);
        push_char(&mut s, c);
        s
    }
}

/// A probe's round-trip time in milliseconds, as the status report shows it:
/// the whole milliseconds, then up to three fractional digits with trailing
/// zeros dropped, and no fraction at all on a whole number.
pub open spec fn ping_ms_spec(micros: nat) -> Seq<char> {
    let ms = micros / 1000;
    let frac = micros % 1000;
    if frac == 0 {
        dec_str(ms)
    } else {
        let one = dec_str(ms).push('.').push(digit_char(frac / 100));
        if frac % 100 == 0 {
            one
        } else {
            let two = one.push(digit_char((frac / 10) % 10));
            if frac % 10 == 0 {
                two
            } else {
                two.push(digit_char(frac % 10))
            }
        }
    }
}

/// Renders a measured round-trip time, given in microseconds, as the
/// milliseconds value the status report shows.
pub fn ping_time_ms_string(micros: u64) -> (r: String)
    ensures
        r@ == ping_ms_spec(micros as nat),
{
    let ms = micros / 1000;
    let frac = micros % 1000;
    let mut s = u64_to_decimal(ms);
    if frac != 0 {
        push_char(&mut s, '.');
        push_char(&mut s, (48 + (frac / 100) as u8) as char);
        if frac % 100 != 0 {
            push_char(&mut s, (48 + ((frac / 10) % 10) as u8) as char);
            if frac % 10 != 0 {
                push_char(&mut s, (48 + (frac % 10) as u8) as char);
            }
        }
    }
    s
}

/// The health value the status report maps a server's host to: `healthy`, or
/// `unhealthy: ` followed by the recorded message.
pub open spec fn health_value_spec(status: &VkLdapServerStatus) -> Seq<char> {
    match status {
        VkLdapServerStatus::HEALTHY => "healthy"@,
        VkLdapServerStatus::UNHEALTHY(m) => "unhealthy: "@ + m@,
    }
}

/// Renders one server's health for the status report's mapping.
pub fn health_value(server: &VkLdapServer) -> (r: String)
    ensures
        r@ == health_value_spec(&server.status),
{
    match &server.status {
        VkLdapServerStatus::HEALTHY => String::from_str("healthy"),
        VkLdapServerStatus::UNHEALTHY(m) => String::from_str("unhealthy: ").concat(m.as_str()),
    }
}

/// One server's line of the status report: the host, the health word, and
/// the error message of an unhealthy server.
pub struct ServerStatusFields {
    pub host: String,
    pub health: String,
    pub error: Option<String>,
}

/// The fields the status command reports for one server.  The health word is
/// `healthy` or `unhealthy`; only an unhealthy server carries an error, and
/// it is exactly the recorded message.  No other field of the server — in
/// particular no credential — reaches the report.
pub fn status_fields(server: &VkLdapServer) -> (r: ServerStatusFields)
    ensures
        r.host@ == match server.url.host {
            Some(h) => h@,
            None => server.url.text@,
        },
        server.status is HEALTHY ==> r.health@ == "healthy"@ && r.error is None,
        (server.status matches VkLdapServerStatus::UNHEALTHY(m) ==> r.health@ == "unhealthy"@ && (
        r.error matches Some(e) && e@ == m@)),
{
    let host = server.get_host_string();
    match &server.status {
        VkLdapServerStatus::HEALTHY => ServerStatusFields {
            host,
            health: String::from_str("healthy"),
            error: None,
        },
        VkLdapServerStatus::UNHEALTHY(m) => ServerStatusFields {
            host,
            health: String::from_str("unhealthy"),
            error: Some(m.clone()),
        },
    }
}

} // verus!
