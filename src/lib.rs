//! Control plane for a pool of headless browser processes: the instance
//! registry, launch argument construction, the single-flight discovery cache
//! with loopback rewriting, health state and request routing.
use vstd::prelude::*;

pub mod cache;
pub mod config;
pub mod control;
pub mod discovery;
pub mod launcher;
pub mod literals;
pub mod registry;
pub mod routes;
pub mod text;

verus! {

} // verus!
