//! Verified computational kernels for an edge-deployed demonstration service.
//!
//! The service around these kernels (HTTP routing, JSON marshalling, the
//! key-value store, the browser dashboard) is thin plumbing and lives outside
//! this crate.  What lives here are the self-contained algorithms that do real
//! work on untrusted input and must produce bit-exact, deterministic results:
//!
//! - a CRC-16 checksum engine ([`checksum`]),
//! - a Modbus RTU frame decoder with checksum verification ([`codec`]),
//! - a 2-out-of-3 redundant-sensor voter ([`voter`]),
//! - a fixed-window request counter ([`window`]),
//!
//! plus the plain record types the surrounding service exchanges
//! ([`capability`], [`reports`]).
#![verifier::loop_isolation(false)]

pub mod checksum;
pub mod codec;
pub mod voter;
pub mod window;
pub mod capability;
pub mod reports;
