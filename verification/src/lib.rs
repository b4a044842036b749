//! The core of a minimal Linux container runtime: image acquisition and
//! layer assembly, overlay filesystem composition, namespace and veth/bridge
//! wiring, cgroup resource limits through a systemd transient scope, and the
//! persistent bookkeeping that ties those resources to a container identity
//! until teardown releases them in reverse order.
//!
//! Everything the runtime decides or computes lives here, with contracts;
//! the syscalls, registry transfers, netlink transactions, and the system
//! bus call stand in the surrounding binary.

pub mod cgroup;
pub mod container;
pub mod db;
pub mod errors;
pub mod image;
pub mod network;
pub mod rng;
pub mod store;
pub mod strutil;
