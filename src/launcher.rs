//! Command lines of the backend processes, and how the engine is chosen.
use vstd::prelude::*;
use crate::literals::{
    address_flag, address_flag_bytes, host_prefix, host_prefix_bytes, host_switch,
    host_switch_bytes, lightpanda_linux, lightpanda_linux_bytes, lightpanda_macos,
    lightpanda_macos_bytes, port_flag, port_flag_bytes, port_prefix, port_prefix_bytes,
    port_switch, port_switch_bytes,
};
use crate::text::{
    append_bytes, decimal, decimal_bytes, ends_with, bytes_ends_with, replace_all, replace_bytes,
};

verus! {

/// The views of a list of byte strings.
pub open spec fn views(v: Seq<Vec<u8>>) -> Seq<Seq<u8>> {
    v.map_values(|a: Vec<u8>| a@)
}

/// The browser's arguments: the template, with the remote-debugging address
/// in the first place when `address` is not empty, and the remote-debugging
/// port in the second when `port` is given.
pub open spec fn chrome_args_spec(template: Seq<Seq<u8>>, address: Seq<u8>, port: Option<u32>) -> Seq<
    Seq<u8>,
> {
    let a = if address.len() == 0 {
        template
    } else {
        template.update(0, address_flag() + address)
    };
    match port {
        Some(p) => a.update(1, port_flag() + decimal(p as nat)),
        None => a,
    }
}

/// The lightweight engine's arguments: `--port` and `--host` with the values
/// that the template's second and first entries give after their flag text
/// is removed.
pub open spec fn lightpanda_args_spec(template: Seq<Seq<u8>>) -> Seq<Seq<u8>> {
    seq![
        port_switch(),
        replace_all(template[1], port_prefix(), Seq::empty()),
        host_switch(),
        replace_all(template[0], host_prefix(), Seq::empty()),
    ]
}

fn concat(a: &[u8], b: &[u8]) -> (r: Vec<u8>)
    ensures
        r@ == a@ + b@,
{
    let mut r: Vec<u8> = Vec::new();
    append_bytes(&mut r, a);
    append_bytes(&mut r, b);
    assert(r@ =~= a@ + b@);
    r
}

fn clone_all(v: &Vec<Vec<u8>>) -> (r: Vec<Vec<u8>>)
    ensures
        views(r@) == views(v@),
{
    let mut r: Vec<Vec<u8>> = Vec::new();
    let mut i: usize = 0;
    while i < v.len()
        invariant
            0 <= i <= v@.len(),
            views(r@) =~= views(v@.take(i as int)),
        decreases v@.len() - i,
    {
        let mut c: Vec<u8> = Vec::new();
        append_bytes(&mut c, v[i].as_slice());
        assert(c@ =~= v@[i as int]@);
        let ghost before = r@;
        r.push(c);
        assert(r@ =~= before.push(c));
        assert(v@.take(i + 1) =~= v@.take(i as int).push(v@[i as int]));
        assert(views(r@) =~= views(before).push(c@));
        assert(views(v@.take(i + 1)) =~= views(v@.take(i as int)).push(v@[i as int]@));
        i = i + 1;
    }
    assert(v@.take(v@.len() as int) =~= v@);
    r
}

/// The browser's command-line arguments for a launch.
pub fn chrome_args(template: &Vec<Vec<u8>>, address: &[u8], port: Option<u32>) -> (r: Vec<Vec<u8>>)
    requires
        template@.len() >= 2,
    ensures
        views(r@) == chrome_args_spec(views(template@), address@, port),
{
    let mut args = clone_all(template);
    if address.len() > 0 {
        let flag = address_flag_bytes();
        let a = concat(flag.as_slice(), address);
        args.set(0, a);
    }
    assert(views(args@) =~= (if address@.len() == 0 {
        views(template@)
    } else {
        views(template@).update(0, address_flag() + address@)
    }));
    let ghost mid = views(args@);
    assert(args@.len() == template@.len()) by {
        assert(views(args@).len() == args@.len());
    }
    match port {
        Some(p) => {
            let flag = port_flag_bytes();
            let digits = decimal_bytes(p);
            let a = concat(flag.as_slice(), digits.as_slice());
            args.set(1, a);
            assert(views(args@) =~= mid.update(1, port_flag() + decimal(p as nat)));
        },
        None => {},
    }
    args
}

/// The lightweight engine's command-line arguments for a launch.
pub fn lightpanda_args(template: &Vec<Vec<u8>>) -> (r: Vec<Vec<u8>>)
    requires
        template@.len() >= 2,
    ensures
        views(r@) == lightpanda_args_spec(views(template@)),
{
    let empty: Vec<u8> = Vec::new();
    let port_text = port_prefix_bytes();
    let host_text = host_prefix_bytes();
    let port = replace_bytes(template[1].as_slice(), port_text.as_slice(), empty.as_slice());
    let host = replace_bytes(template[0].as_slice(), host_text.as_slice(), empty.as_slice());
    let mut r: Vec<Vec<u8>> = Vec::new();
    r.push(port_switch_bytes());
    r.push(port);
    r.push(host_switch_bytes());
    r.push(host);
    assert(empty@ =~= Seq::<u8>::empty());
    assert(views(r@) =~= lightpanda_args_spec(views(template@)));
    r
}

/// Whether the binary at `path` is the lightweight engine, told by its file
/// name.
pub open spec fn is_lightpanda_spec(path: Seq<u8>) -> bool {
    ends_with(path, lightpanda_macos()) || ends_with(path, lightpanda_linux())
}

/// Whether the binary at `path` is the lightweight engine.
pub fn is_lightpanda_build(path: &[u8]) -> (r: bool)
    ensures
        r == is_lightpanda_spec(path@),
{
    let mac = lightpanda_macos_bytes();
    let linux = lightpanda_linux_bytes();
    bytes_ends_with(path, mac.as_slice()) || bytes_ends_with(path, linux.as_slice())
}

/// The operating system that a default browser path is chosen for.
pub enum TargetOs {
    Windows,
    MacOs,
    Linux,
    Other,
}

/// The default browser binary for an operating system.
pub fn get_default_chrome_bin(os: TargetOs) -> (r: &'static str)
    ensures
        os is Windows ==> r@ == "chrome.exe"@,
        os is MacOs ==> r@ == "/Applications/Google Chrome.app/Contents/MacOS/Google Chrome"@,
        os is Linux ==> r@ == "chromium"@,
        os is Other ==> r@ == "chrome"@,
{
    match os {
        TargetOs::Windows => "chrome.exe",
        TargetOs::MacOs => "/Applications/Google Chrome.app/Contents/MacOS/Google Chrome",
        TargetOs::Linux => "chromium",
        TargetOs::Other => "chrome",
    }
}

} // verus!
