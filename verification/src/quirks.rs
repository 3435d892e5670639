//! Quirk compensation: a capability table for the build target.
//!
//! Kernel implementations of the queue facility differ in defaults, limits
//! and descriptor behaviour. Rather than scattering target conditionals
//! through the code, this table resolves those differences once; the
//! configuration and handle code consult it, and tests can assert behaviour
//! through the same queries.

use vstd::prelude::*;

verus! {

/// What the build target's kernel and call layer provide.
#[derive(Clone, Copy, Debug, PartialEq, Eq, Structural)]
pub struct Capabilities {
    /// Whether a handle can be duplicated with close-on-exec applied.
    /// False where the descriptor is carried as an opaque platform handle
    /// that defines no duplication primitive.
    pub supports_duplicate_with_cloexec: bool,
    /// Whether a plain pollable descriptor can be extracted from a handle.
    /// False where the descriptor is carried as an opaque platform handle.
    pub supports_descriptor_extraction: bool,
    /// Whether the kernel ignores the requested close-on-exec flag at open
    /// time, so it must be applied afterward by a separate call.
    pub forces_cloexec_after_open: bool,
    /// Queue capacity used when none is requested.
    pub default_capacity: usize,
    /// Largest capacity an unprivileged process may request.
    pub max_capacity: usize,
    /// Maximum message length used when none is requested.
    pub default_max_msg_len: usize,
    /// Largest maximum message length an unprivileged process may request.
    pub max_max_msg_len: usize,
    /// Largest message priority the kernel accepts.
    pub max_priority: u32,
    /// Whether zero-length messages may be sent.
    pub allows_empty_messages: bool,
    /// Whether the kernel rejects ill-shaped names (a bare separator,
    /// a second separator, "." or "..").
    pub enforces_name_rules: bool,
}

/// The capability table of the supported target.
pub open spec fn target_capabilities() -> Capabilities {
    Capabilities {
        supports_duplicate_with_cloexec: false,
        supports_descriptor_extraction: false,
        forces_cloexec_after_open: false,
        default_capacity: 10,
        max_capacity: 10,
        default_max_msg_len: 8192,
        max_max_msg_len: 8192,
        max_priority: 32767,
        allows_empty_messages: true,
        enforces_name_rules: true,
    }
}

/// Resolve the capability table for the build target.
pub fn capabilities() -> (r: Capabilities)
    ensures
        r == target_capabilities(),
{
    Capabilities {
        supports_duplicate_with_cloexec: false,
        supports_descriptor_extraction: false,
        forces_cloexec_after_open: false,
        default_capacity: 10,
        max_capacity: 10,
        default_max_msg_len: 8192,
        max_max_msg_len: 8192,
        max_priority: 32767,
        allows_empty_messages: true,
        enforces_name_rules: true,
    }
}

} // verus!
