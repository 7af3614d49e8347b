//! Pure path-safety rules for user-supplied config paths.
//!
//! The root daemon reads `.kbd` files whose paths arrive over the control
//! socket. Canonicalizing, opening, and `fstat`-ing the file is the daemon's
//! I/O; this module is the decision made from the resulting facts.

use vstd::prelude::*;

verus! {

/// Facts about an opened file, gathered by `fstat` so that the decision applies
/// to the exact inode that was opened.
#[derive(Debug, Clone, Copy, PartialEq, Eq, Structural)]
pub struct PathFacts {
    /// The opened path resolves to a regular file (not a dir, device, fifo…).
    pub is_regular_file: bool,
    /// Owning uid of the file.
    pub uid: u32,
    /// Unix permission bits (`st_mode & 0o7777`).
    pub mode: u32,
}

/// Why a path was rejected.
#[derive(Debug, Clone, Copy, PartialEq, Eq, Structural)]
pub enum PathReject {
    /// Not a regular file (symlink target, directory, device, …).
    NotRegularFile,
    /// Owned by neither root nor the requesting connection's uid.
    ForeignOwner,
    /// Group- or world-writable, so another user could swap its contents.
    Writable,
}

impl PathReject {
    /// A user-facing, actionable one-liner.
    pub fn describe(self) -> (r: &'static str)
        ensures
            r@ == match self {
                Self::NotRegularFile => "path is not a regular file"@,
                Self::ForeignOwner =>
                    "config must be owned by root or by you; refusing a foreign-owned file"@,
                Self::Writable =>
                    "config is group- or world-writable; tighten it to 0644 or stricter"@,
            },
    {
        match self {
            Self::NotRegularFile => "path is not a regular file",
            Self::ForeignOwner =>
                "config must be owned by root or by you; refusing a foreign-owned file",
            Self::Writable => "config is group- or world-writable; tighten it to 0644 or stricter",
        }
    }
}

/// The group-write permission bit is set.
pub open spec fn group_writable(mode: u32) -> bool {
    mode & 0o020 != 0
}

/// The world-write permission bit is set.
pub open spec fn world_writable(mode: u32) -> bool {
    mode & 0o002 != 0
}

/// The file belongs to root or to the requester.
pub open spec fn trusted_owner(facts: PathFacts, requesting_uid: u32) -> bool {
    facts.uid == 0 || facts.uid == requesting_uid
}

/// Decide whether an opened file is safe to read as root: it must be a regular
/// file, owned by root or the requesting uid, and not group/world-writable. The
/// first rule that fails, in that order, is the one reported.
pub fn check(facts: &PathFacts, requesting_uid: u32) -> (r: Result<(), PathReject>)
    ensures
        r is Ok <==> facts.is_regular_file && trusted_owner(*facts, requesting_uid)
            && !group_writable(facts.mode) && !world_writable(facts.mode),
        r == Err::<(), PathReject>(PathReject::NotRegularFile) <==> !facts.is_regular_file,
        r == Err::<(), PathReject>(PathReject::ForeignOwner) <==> facts.is_regular_file
            && !trusted_owner(*facts, requesting_uid),
        r == Err::<(), PathReject>(PathReject::Writable) <==> facts.is_regular_file
            && trusted_owner(*facts, requesting_uid) && (group_writable(facts.mode)
            || world_writable(facts.mode)),
{
    let mode: u32 = facts.mode;
    assert(mode & 0o022 == 0 <==> (mode & 0o020 == 0 && mode & 0o002 == 0)) by (bit_vector);
    if !facts.is_regular_file {
        return Err(PathReject::NotRegularFile);
    }
    if facts.uid != 0 && facts.uid != requesting_uid {
        return Err(PathReject::ForeignOwner);
    }
    // 0o022 = group-write | other-write.
    if mode & 0o022 != 0 {
        return Err(PathReject::Writable);
    }
    Ok(())
}

/// The bits that let others than the owner write are the second of the group's
/// octal digit and the second of everyone's: a mode without either is writable by
/// its owner alone.
pub proof fn writable_bits_are_the_middle_ones(mode: u32)
    ensures
        group_writable(mode) <==> (mode / 16) % 2 == 1,
        world_writable(mode) <==> (mode / 2) % 2 == 1,
        !group_writable(0o644) && !world_writable(0o644),
{
    assert(mode & 0o020 != 0 <==> (mode / 16) % 2 == 1) by (bit_vector);
    assert(mode & 0o002 != 0 <==> (mode / 2) % 2 == 1) by (bit_vector);
    assert(0o644u32 & 0o020 == 0 && 0o644u32 & 0o002 == 0) by (bit_vector);
}

/// Root's files are trusted for everyone, one's own for oneself, and no others.
pub proof fn owners_are_root_or_oneself(facts: PathFacts, requesting_uid: u32)
    ensures
        trusted_owner(facts, requesting_uid) <==> facts.uid == 0 || facts.uid == requesting_uid,
        facts.uid != 0 && trusted_owner(facts, requesting_uid) ==> requesting_uid == facts.uid,
{
}

} // verus!
