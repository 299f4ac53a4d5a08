//! A verified core for a local Docker volume driver backed by a
//! copy-on-write pool (ZFS): name sanitisation, volume options,
//! the reference-counted mount-ownership table, the pool CLI
//! command builders, and the volume lifecycle state machine.

pub mod api;
pub mod config;
pub mod containers;
pub mod dataset;
pub mod mounts;
pub mod names;
pub mod noop;
pub mod numbers;
pub mod options;
pub mod pool;
pub mod runner;
pub mod strutil;
pub mod timeout;
pub mod zfs;

pub use names::sanitize_vol;
