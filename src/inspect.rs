use vstd::prelude::*;

use crate::platform::{privileged_gid, spec_privileged_gid, Platform, ROOT_UID};

verus! {

/// Mode bit that makes a program run as its owner.
pub const SETUID_BIT: u32 = 0o4000;

/// Mode bit that makes a program run as its group.
pub const SETGID_BIT: u32 = 0o2000;

/// What the state check reads of a file: owner, group and mode bits.
#[derive(Clone, Copy, Debug, PartialEq, Eq, Structural)]
pub struct FileMeta {
    pub uid: u32,
    pub gid: u32,
    pub mode: u32,
}

/// Whether `bit` is set in `mode`.
pub open spec fn has_bit(mode: u32, bit: u32) -> bool {
    mode & bit != 0
}

/// The four conditions of a granted binary: owned by root, in the
/// platform's privileged group, setuid and setgid both set.
pub open spec fn meta_granted(p: Platform, m: FileMeta) -> bool {
    &&& m.uid == ROOT_UID
    &&& m.gid == spec_privileged_gid(p)
    &&& has_bit(m.mode, SETUID_BIT)
    &&& has_bit(m.mode, SETGID_BIT)
}

/// The grant state of a file whose metadata read gave `meta`; `None`
/// stands for a failed read, which counts as not granted.
pub open spec fn spec_is_granted(p: Platform, meta: Option<FileMeta>) -> bool {
    match meta {
        Some(m) => meta_granted(p, m),
        None => false,
    }
}

/// Whether the binary already holds the marks of `platform`, judged from
/// its metadata, or `None` where the metadata could not be read.
pub fn getcore_path(platform: Platform, meta: &Option<FileMeta>) -> (r: bool)
    ensures
        r == spec_is_granted(platform, *meta),
{
    match meta {
        Some(m) => {
            let is_owner_root = m.uid == ROOT_UID;
            let is_group_privileged = m.gid == privileged_gid(platform);
            let is_setuid_set = m.mode & SETUID_BIT != 0;
            let is_setgid_set = m.mode & SETGID_BIT != 0;
            is_owner_root && is_group_privileged && is_setuid_set && is_setgid_set
        },
        None => false,
    }
}

/// A file that misses any of the four conditions is not granted.
pub proof fn lemma_missing_condition_not_granted(p: Platform, m: FileMeta)
    requires
        !(m.uid == ROOT_UID && m.gid == spec_privileged_gid(p) && has_bit(m.mode, SETUID_BIT)
            && has_bit(m.mode, SETGID_BIT)),
    ensures
        !spec_is_granted(p, Some(m)),
{
}

/// A file whose metadata cannot be read is not granted.
pub proof fn lemma_unreadable_not_granted(p: Platform)
    ensures
        !spec_is_granted(p, None),
{
}

} // verus!
