//! Capability reporting: which platform capabilities the sandboxed edge
//! runtime grants.
//!
//! Outbound HTTP and the key-value store are available; the filesystem, raw
//! sockets and subprocesses are blocked by the isolate.  The verdict for the
//! blocked capabilities, and for the key-value store, is a fixed property of
//! the platform, so those probes are pure and live here with exact contracts;
//! the outbound-HTTP probe actually performs a request and stays with the
//! service glue.
use vstd::prelude::*;

verus! {

/// A capability probe request.
#[derive(Debug, Clone)]
pub struct CapabilityTest {
    /// Which capability to probe.
    pub capability: CapabilityType,
}

/// The platform capabilities that can be probed.
#[derive(Debug, Clone, Copy, PartialEq, Eq, Structural)]
pub enum CapabilityType {
    /// Outbound HTTP requests — granted.
    Fetch,
    /// Key-value storage — granted.
    KvStorage,
    /// Filesystem access — blocked.
    Filesystem,
    /// Raw sockets — blocked.
    RawSockets,
    /// Subprocess creation — blocked.
    Subprocess,
}

/// The verdict of one capability probe.
#[derive(Debug, Clone)]
pub struct CapabilityResult {
    /// Which capability was probed.
    pub capability: CapabilityType,
    /// Whether the platform grants it.
    pub allowed: bool,
    /// A human-readable account of the verdict.
    pub message: String,
}

/// Whether the platform grants a capability: only outbound HTTP and the
/// key-value store are available in the isolate.
pub open spec fn capability_granted(c: CapabilityType) -> bool {
    match c {
        CapabilityType::Fetch => true,
        CapabilityType::KvStorage => true,
        CapabilityType::Filesystem => false,
        CapabilityType::RawSockets => false,
        CapabilityType::Subprocess => false,
    }
}

/// Probes key-value storage — available whenever a namespace is bound.
pub fn test_kv() -> (r: CapabilityResult)
    ensures
        r.capability == CapabilityType::KvStorage,
        r.allowed == capability_granted(r.capability),
        r.message@ == "Workers KV is available when bound in wrangler.toml"@,
{
    CapabilityResult {
        capability: CapabilityType::KvStorage,
        allowed: true,
        message: "Workers KV is available when bound in wrangler.toml".to_owned(),
    }
}

/// Probes filesystem access — blocked: the isolate has no filesystem.
pub fn test_filesystem() -> (r: CapabilityResult)
    ensures
        r.capability == CapabilityType::Filesystem,
        r.allowed == capability_granted(r.capability),
        r.message@ == "BLOCKED: Workers have no filesystem access. No fs module, no File API. This is equivalent to WASI not granting wasi:filesystem capability."@,
{
    CapabilityResult {
        capability: CapabilityType::Filesystem,
        allowed: false,
        message: "BLOCKED: Workers have no filesystem access. No fs module, no File API. This is equivalent to WASI not granting wasi:filesystem capability.".to_owned(),
    }
}

/// Probes raw sockets — blocked: only HTTP fetch and limited TCP upgrades.
pub fn test_raw_sockets() -> (r: CapabilityResult)
    ensures
        r.capability == CapabilityType::RawSockets,
        r.allowed == capability_granted(r.capability),
        r.message@ == "BLOCKED: Workers cannot open raw sockets. Only fetch() for HTTP and connect() for limited TCP (WebSocket upgrades). This is equivalent to WASI not granting wasi:sockets capability."@,
{
    CapabilityResult {
        capability: CapabilityType::RawSockets,
        allowed: false,
        message: "BLOCKED: Workers cannot open raw sockets. Only fetch() for HTTP and connect() for limited TCP (WebSocket upgrades). This is equivalent to WASI not granting wasi:sockets capability.".to_owned(),
    }
}

/// Probes subprocess creation — blocked: code runs in a pure isolate.
pub fn test_subprocess() -> (r: CapabilityResult)
    ensures
        r.capability == CapabilityType::Subprocess,
        r.allowed == capability_granted(r.capability),
        r.message@ == "BLOCKED: Workers cannot spawn subprocesses. No exec(), no shell access. Code runs in pure V8 isolate. This is the same isolation as WASM sandbox."@,
{
    CapabilityResult {
        capability: CapabilityType::Subprocess,
        allowed: false,
        message: "BLOCKED: Workers cannot spawn subprocesses. No exec(), no shell access. Code runs in pure V8 isolate. This is the same isolation as WASM sandbox.".to_owned(),
    }
}

} // verus!
