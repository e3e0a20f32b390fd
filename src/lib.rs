//! Host side of a plugin system: modules loaded at run time hand the host an
//! opaque context and a versioned table of operations, and the host keeps the
//! admitted plugins in load order.
use vstd::prelude::*;

pub mod plugin;
pub mod loader;
pub mod arith;

pub use plugin::{Plugin, LoadError, Entry, VERSION, is_host_version};
pub use loader::Loader;
pub use arith::{Add, PluginMul};
