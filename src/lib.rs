//! Control plane of a type-1.5 hypervisor: the daemon's VM registry, its
//! emulated block backends, the event engine's decisions and the framing of
//! the request/reply wire protocol spoken with the command-line client.

pub mod cache;
pub mod cli;
pub mod client;
pub mod engine;
pub mod error;
pub mod framing;
pub mod pagetable;
pub mod request;
pub mod vdev;
pub mod vmm;
