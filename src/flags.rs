//! Validation and translation of the flag sets that syscalls receive.

use vstd::prelude::*;
use crate::error::FsError;

verus! {

/// `linkat`: follow a symbolic link given as the old path.
pub const AT_SYMLINK_FOLLOW: usize = 0x400;
/// `linkat`, `fstatat`: an empty path names the directory descriptor itself.
pub const AT_EMPTY_PATH: usize = 0x1000;
/// `fstatat`: do not follow a final symbolic link.
pub const AT_SYMLINK_NOFOLLOW: usize = 0x100;
/// `fstatat`: do not trigger an automount.
pub const AT_NO_AUTOMOUNT: usize = 0x800;

/// Open flag: write only.
pub const O_WRONLY: usize = 0x1;
/// Every bit that an open flag set may hold: the access mode and the
/// `O_CREAT` .. `O_TMPFILE` flags.
pub const OPEN_FLAGS_MASK: usize = 0x7fffc3;
/// Every bit that a mount flag set may hold: `MS_RDONLY` .. `MS_LAZYTIME`.
pub const MOUNT_FLAGS_MASK: usize = 0x3fffcff;

/// How the VFS walks a path.
#[derive(Clone, Copy, PartialEq, Eq, Structural, Debug)]
pub struct LookupFlags {
    /// Resolve a symbolic link in place of the link itself.
    pub read_link: bool,
    /// Accept an empty path, naming the starting directory.
    pub empty: bool,
}

impl LookupFlags {
    /// No lookup flag set.
    pub fn none() -> (r: LookupFlags)
        ensures
            !r.read_link && !r.empty,
    {
        LookupFlags { read_link: false, empty: false }
    }
}

/// The access mode a file is opened or created with.
#[derive(Clone, Copy, PartialEq, Eq, Structural, Debug)]
pub struct FileMode {
    pub read: bool,
    pub write: bool,
}

/// Validates the flags of `linkat`: only `AT_SYMLINK_FOLLOW` and
/// `AT_EMPTY_PATH` are recognised, any other bit fails with `InvalidFlags`.
/// The first asks the walk to read links, the second to accept an empty path.
pub fn link_lookup_flags(flag: usize) -> (r: Result<LookupFlags, FsError>)
    ensures
        flag & !(AT_SYMLINK_FOLLOW | AT_EMPTY_PATH) != 0 ==> r == Err::<LookupFlags, FsError>(
            FsError::InvalidFlags,
        ),
        flag & !(AT_SYMLINK_FOLLOW | AT_EMPTY_PATH) == 0 ==> r == Ok::<LookupFlags, FsError>(
            LookupFlags {
                read_link: flag & AT_SYMLINK_FOLLOW != 0,
                empty: flag & AT_EMPTY_PATH != 0,
            },
        ),
{
    if flag & !(AT_SYMLINK_FOLLOW | AT_EMPTY_PATH) != 0 {
        return Err(FsError::InvalidFlags);
    }
    Ok(LookupFlags { read_link: flag & AT_SYMLINK_FOLLOW != 0, empty: flag & AT_EMPTY_PATH != 0 })
}

/// Validates the flags of `fstatat`: `AT_SYMLINK_NOFOLLOW`,
/// `AT_NO_AUTOMOUNT` and `AT_EMPTY_PATH` are recognised; any other bit fails
/// with `InvalidFlags`. The accepted set is handed back unchanged.
pub fn stat_flags(flag: usize) -> (r: Result<usize, FsError>)
    ensures
        flag & !(AT_SYMLINK_NOFOLLOW | AT_NO_AUTOMOUNT | AT_EMPTY_PATH) != 0 ==> r == Err::<
            usize,
            FsError,
        >(FsError::InvalidFlags),
        flag & !(AT_SYMLINK_NOFOLLOW | AT_NO_AUTOMOUNT | AT_EMPTY_PATH) == 0 ==> r == Ok::<
            usize,
            FsError,
        >(flag),
{
    if flag & !(AT_SYMLINK_NOFOLLOW | AT_NO_AUTOMOUNT | AT_EMPTY_PATH) != 0 {
        Err(FsError::InvalidFlags)
    } else {
        Ok(flag)
    }
}

/// Validates an open flag set: any bit outside `OPEN_FLAGS_MASK` fails with
/// `InvalidFlags`.
pub fn open_flags(flag: usize) -> (r: Result<usize, FsError>)
    ensures
        flag & !OPEN_FLAGS_MASK != 0 ==> r == Err::<usize, FsError>(FsError::InvalidFlags),
        flag & !OPEN_FLAGS_MASK == 0 ==> r == Ok::<usize, FsError>(flag),
{
    if flag & !OPEN_FLAGS_MASK != 0 {
        Err(FsError::InvalidFlags)
    } else {
        Ok(flag)
    }
}

/// Validates a mount flag set: any bit outside `MOUNT_FLAGS_MASK` fails
/// with `InvalidFlags`.
pub fn mount_flags(flag: usize) -> (r: Result<usize, FsError>)
    ensures
        flag & !MOUNT_FLAGS_MASK != 0 ==> r == Err::<usize, FsError>(FsError::InvalidFlags),
        flag & !MOUNT_FLAGS_MASK == 0 ==> r == Ok::<usize, FsError>(flag),
{
    if flag & !MOUNT_FLAGS_MASK != 0 {
        Err(FsError::InvalidFlags)
    } else {
        Ok(flag)
    }
}

/// The mode `mkdirat` creates a directory with: always readable, writable
/// too when the open flags ask for `O_WRONLY`. Unknown bits are ignored.
pub fn mkdir_mode(flag: usize) -> (r: FileMode)
    ensures
        r.read,
        r.write == (flag & O_WRONLY != 0),
{
    FileMode { read: true, write: flag & O_WRONLY != 0 }
}

/// The flag argument of `unlinkat`, `setxattr` and `fsetxattr` must be zero:
/// no flag is supported there.
pub fn no_flags(flag: usize) -> (r: Result<(), FsError>)
    ensures
        flag == 0 <==> r is Ok,
        r matches Err(e) ==> e == FsError::InvalidFlags,
{
    if flag == 0 {
        Ok(())
    } else {
        Err(FsError::InvalidFlags)
    }
}

} // verus!
