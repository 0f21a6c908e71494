//! Startup settings taken from arguments and environment values: the
//! external hostname, whether to launch at start, and the default discovery
//! endpoint.
use vstd::prelude::*;
use crate::literals::{init_word, init_word_bytes, true_word, true_word_bytes, url_head, url_head_bytes, version_path, version_path_bytes};
use crate::text::{append_bytes, bytes_eq, decimal, decimal_bytes, parse_u32, parse_u32_bytes};

verus! {

/// The port of the default discovery endpoint when none is configured.
pub const DEFAULT_DISCOVERY_PORT: u32 = 9223;

/// The hostname written into discovery documents: the override when it is
/// set and not empty, else the machine's hostname value, else none.
pub open spec fn hostname_spec(override_var: Option<Seq<u8>>, host_var: Option<Seq<u8>>) -> Seq<u8> {
    match override_var {
        Some(o) if o.len() > 0 => o,
        _ => match host_var {
            Some(h) => h,
            None => Seq::empty(),
        },
    }
}

/// Resolves the external hostname from the override value and the machine's
/// hostname value, each absent when unset.
pub fn resolve_hostname(override_var: Option<Vec<u8>>, host_var: Option<Vec<u8>>) -> (r: Vec<u8>)
    ensures
        r@ == hostname_spec(
            match override_var {
                Some(v) => Some(v@),
                None => None,
            },
            match host_var {
                Some(v) => Some(v@),
                None => None,
            },
        ),
{
    let mut hostname: Vec<u8> = Vec::new();
    match override_var {
        Some(o) => {
            hostname = o;
        },
        None => {},
    }
    if hostname.len() == 0 {
        match host_var {
            Some(h) => {
                hostname = h;
            },
            None => {},
        }
    }
    hostname
}

/// Whether an instance is launched at startup: by the startup argument when
/// it is given (`init`), else by the environment flag (`true`).
pub open spec fn auto_start_spec(arg: Option<Seq<u8>>, init_var: Option<Seq<u8>>) -> bool {
    match arg {
        Some(a) => a == init_word(),
        None => init_var == Some(true_word()),
    }
}

/// Decides whether to launch an instance at startup.
pub fn should_auto_start(arg: &Option<Vec<u8>>, init_var: &Option<Vec<u8>>) -> (r: bool)
    ensures
        r == auto_start_spec(
            match arg {
                Some(v) => Some(v@),
                None => None,
            },
            match init_var {
                Some(v) => Some(v@),
                None => None,
            },
        ),
{
    match arg {
        Some(a) => {
            let w = init_word_bytes();
            bytes_eq(a.as_slice(), w.as_slice())
        },
        None => match init_var {
            Some(v) => {
                let w = true_word_bytes();
                bytes_eq(v.as_slice(), w.as_slice())
            },
            None => false,
        },
    }
}

/// The default discovery port: the argument read as a number, or the
/// built-in port when it is absent, unreadable or zero.
pub open spec fn default_port_spec(arg: Option<Seq<u8>>) -> u32 {
    match arg {
        Some(a) => match parse_u32(a) {
            Some(p) if p != 0 => p,
            _ => DEFAULT_DISCOVERY_PORT,
        },
        None => DEFAULT_DISCOVERY_PORT,
    }
}

/// Resolves the default discovery port.
pub fn default_port(arg: Option<&[u8]>) -> (r: u32)
    ensures
        r == default_port_spec(
            match arg {
                Some(a) => Some(a@),
                None => None,
            },
        ),
{
    match arg {
        Some(a) => match parse_u32_bytes(a) {
            Some(p) => if p != 0 {
                p
            } else {
                DEFAULT_DISCOVERY_PORT
            },
            None => DEFAULT_DISCOVERY_PORT,
        },
        None => DEFAULT_DISCOVERY_PORT,
    }
}

/// The discovery URL of the instance listening on local port `port`.
pub open spec fn version_url_spec(port: u32) -> Seq<u8> {
    url_head() + decimal(port as nat) + version_path()
}

/// Builds the discovery URL of the instance on local port `port`.
pub fn version_url(port: u32) -> (r: Vec<u8>)
    ensures
        r@ == version_url_spec(port),
{
    let mut r = url_head_bytes();
    let digits = decimal_bytes(port);
    let tail = version_path_bytes();
    append_bytes(&mut r, digits.as_slice());
    append_bytes(&mut r, tail.as_slice());
    r
}

/// The process-wide default discovery URL for the port argument.
pub fn default_endpoint(arg: Option<&[u8]>) -> (r: Vec<u8>)
    ensures
        r@ == version_url_spec(
            default_port_spec(
                match arg {
                    Some(a) => Some(a@),
                    None => None,
                },
            ),
        ),
{
    version_url(default_port(arg))
}

} // verus!
