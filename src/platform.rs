use vstd::prelude::*;

verus! {

/// The two grant mechanisms a POSIX host may use for the core binary.
#[derive(Clone, Copy, Debug, PartialEq, Eq, Structural)]
pub enum Platform {
    /// Ownership by root and the administrative group, with setuid and setgid.
    MacOs,
    /// File capabilities applied through an elevation helper.
    Linux,
}

/// Owner id that a granted binary must have.
pub const ROOT_UID: u32 = 0;

/// Group id of the administrative group on the ownership-based platform.
pub const ADMIN_GID: u32 = 80;

/// Group id of the root group.
pub const ROOT_GID: u32 = 0;

/// The group that a granted binary must belong to on `p`.
pub open spec fn spec_privileged_gid(p: Platform) -> u32 {
    match p {
        Platform::MacOs => ADMIN_GID,
        Platform::Linux => ROOT_GID,
    }
}

/// The group that a granted binary must belong to on `p`.
pub fn privileged_gid(p: Platform) -> (r: u32)
    ensures
        r == spec_privileged_gid(p),
{
    match p {
        Platform::MacOs => ADMIN_GID,
        Platform::Linux => ROOT_GID,
    }
}

} // verus!
