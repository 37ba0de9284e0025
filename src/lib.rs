//! A deterministic journal for a sandboxed guest: the byte-exact event
//! subscription record that crosses the guest/host boundary, its tagged view,
//! and the capture and replay of thread snapshots in an append-only log.

pub mod bytes;
pub mod subscription;
pub mod journal;
