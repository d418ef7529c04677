//! Verified core of the GLASS overlay framework.
use vstd::prelude::*;

pub mod error;
pub mod safety;
pub mod scene;
pub mod input;
pub mod text;
pub mod config;
pub mod modules;
pub mod system_stats;
pub mod alloc_tracker;
pub mod fps;
pub mod window;
pub mod hdr;
pub mod render;

verus! {
}
