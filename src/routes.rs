//! The control surface's routes: which action a request's method and path
//! select.
use vstd::prelude::*;
use crate::literals::{
    fork_path, fork_path_bytes, root_path, root_path_bytes, shutdown_path, shutdown_path_bytes,
    version_path, version_path_bytes,
};
use crate::text::{bytes_eq, bytes_starts_with, parse_u32, parse_u32_bytes, skip_bytes, starts_with};

verus! {

/// The request methods that the routes tell apart.
pub enum Method {
    Get,
    Post,
    Other,
}

/// The action that a request selects.
pub enum Route {
    /// Report the health flag.
    Health,
    /// The cached, rewritten discovery document of the default instance.
    Version,
    /// The discovery document of the instance on this port, as it comes.
    VersionPort(u32),
    /// Launch an instance on the default port.
    Fork,
    /// Launch an instance on this port.
    ForkPort(u32),
    /// Terminate the instance with this id.
    Shutdown(u32),
    /// Terminate every registered instance.
    ShutdownAll,
    /// No route matches.
    NotFound,
}

/// The number in the path segment that follows `prefix`, if the path is
/// `prefix`, a slash and a number.
pub open spec fn param_after(path: Seq<u8>, prefix: Seq<u8>) -> Option<u32> {
    if starts_with(path, prefix + seq![47u8]) {
        parse_u32(path.skip(prefix.len() as int + 1))
    } else {
        None
    }
}

/// The action that a request selects.
pub open spec fn route_spec(method: Method, path: Seq<u8>) -> Route {
    match method {
        Method::Get => if path == root_path() {
            Route::Health
        } else if path == version_path() {
            Route::Version
        } else if param_after(path, version_path()) is Some {
            Route::VersionPort(param_after(path, version_path())->0)
        } else {
            Route::NotFound
        },
        Method::Post => if path == fork_path() {
            Route::Fork
        } else if param_after(path, fork_path()) is Some {
            Route::ForkPort(param_after(path, fork_path())->0)
        } else if path == shutdown_path() {
            Route::ShutdownAll
        } else if param_after(path, shutdown_path()) is Some {
            Route::Shutdown(param_after(path, shutdown_path())->0)
        } else {
            Route::NotFound
        },
        Method::Other => Route::NotFound,
    }
}

fn param_after_bytes(path: &[u8], prefix: &[u8]) -> (r: Option<u32>)
    requires
        prefix@.len() < usize::MAX,
    ensures
        r == param_after(path@, prefix@),
{
    let mut head: Vec<u8> = Vec::new();
    crate::text::append_bytes(&mut head, prefix);
    head.push(47u8);
    assert(head@ =~= prefix@ + seq![47u8]);
    if bytes_starts_with(path, head.as_slice()) {
        let rest = skip_bytes(path, prefix.len() + 1);
        parse_u32_bytes(rest.as_slice())
    } else {
        None
    }
}

/// Selects the action for a request.
pub fn route(method: Method, path: &[u8]) -> (r: Route)
    ensures
        r == route_spec(method, path@),
{
    let root = root_path_bytes();
    let version = version_path_bytes();
    let fork = fork_path_bytes();
    let shutdown = shutdown_path_bytes();
    match method {
        Method::Get => {
            if bytes_eq(path, root.as_slice()) {
                Route::Health
            } else if bytes_eq(path, version.as_slice()) {
                Route::Version
            } else {
                match param_after_bytes(path, version.as_slice()) {
                    Some(p) => Route::VersionPort(p),
                    None => Route::NotFound,
                }
            }
        },
        Method::Post => {
            if bytes_eq(path, fork.as_slice()) {
                Route::Fork
            } else {
                match param_after_bytes(path, fork.as_slice()) {
                    Some(p) => Route::ForkPort(p),
                    None => if bytes_eq(path, shutdown.as_slice()) {
                        Route::ShutdownAll
                    } else {
                        match param_after_bytes(path, shutdown.as_slice()) {
                            Some(p) => Route::Shutdown(p),
                            None => Route::NotFound,
                        }
                    },
                }
            }
        },
        Method::Other => Route::NotFound,
    }
}

} // verus!
