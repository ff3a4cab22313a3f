//! File and filesystem attribute records.

use vstd::prelude::*;
use crate::file::KFile;

verus! {

/// File attributes as the VFS reports them and `fstat` returns them.
#[derive(Clone, Copy, PartialEq, Eq, Structural, Debug)]
pub struct KStat {
    pub st_dev: u64,
    pub st_ino: u64,
    pub st_mode: u32,
    pub st_nlink: u32,
    pub st_uid: u32,
    pub st_gid: u32,
    pub st_rdev: u64,
    pub st_size: u64,
    pub st_blksize: u32,
    pub st_blocks: u64,
    pub st_atime_sec: u64,
    pub st_atime_nsec: u64,
    pub st_mtime_sec: u64,
    pub st_mtime_nsec: u64,
    pub st_ctime_sec: u64,
    pub st_ctime_nsec: u64,
}

/// `attr` with the access and modify times replaced by those cached on
/// the open file `k`.
pub open spec fn spec_fstat(attr: KStat, k: KFile) -> KStat {
    KStat {
        st_atime_sec: k.atime.tv_sec,
        st_atime_nsec: k.atime.tv_nsec,
        st_mtime_sec: k.mtime.tv_sec,
        st_mtime_nsec: k.mtime.tv_nsec,
        ..attr
    }
}

/// What `fstat` reports for open file `k` whose VFS attributes are `attr`:
/// the VFS does not track per-open timestamps, so the file's own access and
/// modify times replace those of `attr`.
pub fn fstat_overlay(attr: KStat, k: &KFile) -> (r: KStat)
    ensures
        r == spec_fstat(attr, *k),
{
    KStat {
        st_atime_sec: k.atime.tv_sec,
        st_atime_nsec: k.atime.tv_nsec,
        st_mtime_sec: k.mtime.tv_sec,
        st_mtime_nsec: k.mtime.tv_nsec,
        ..attr
    }
}

/// Filesystem statistics as the VFS reports them.
#[derive(Clone, Copy, PartialEq, Eq, Structural, Debug)]
pub struct StatFs {
    pub fs_type: u64,
    pub block_size: u64,
    pub total_blocks: u64,
    pub free_blocks: u64,
    pub total_inodes: u64,
    pub name_len: u64,
}

/// The fixed-layout filesystem-statistics record that `statfs` and
/// `fstatfs` write to user memory.
#[derive(Clone, Copy, PartialEq, Eq, Debug)]
pub struct FsStat {
    pub f_type: i64,
    pub f_bsize: i64,
    pub f_blocks: u64,
    pub f_bfree: u64,
    pub f_bavail: u64,
    pub f_files: u64,
    pub f_ffree: u64,
    pub f_fsid: [i32; 2],
    pub f_namelen: isize,
    pub f_frsize: isize,
    pub f_flags: isize,
    pub f_spare: [isize; 4],
}

/// The record for VFS statistics `s`: type, block size, block and inode
/// totals, free blocks and name length carried over; fsid `[0, 1]`; every
/// other field zero.
pub open spec fn spec_fsstat(s: StatFs) -> FsStat {
    FsStat {
        f_type: s.fs_type as i64,
        f_bsize: s.block_size as i64,
        f_blocks: s.total_blocks,
        f_bfree: s.free_blocks,
        f_bavail: 0,
        f_files: s.total_inodes,
        f_ffree: 0,
        f_fsid: [0, 1],
        f_namelen: s.name_len as isize,
        f_frsize: 0,
        f_flags: 0,
        f_spare: [0, 0, 0, 0],
    }
}

/// Translates VFS statistics into the record that `statfs` returns.
pub fn vfs_statfs2fsstat(s: &StatFs) -> (r: FsStat)
    ensures
        r == spec_fsstat(*s),
{
    FsStat {
        f_type: s.fs_type as i64,
        f_bsize: s.block_size as i64,
        f_blocks: s.total_blocks,
        f_bfree: s.free_blocks,
        f_bavail: 0,
        f_files: s.total_inodes,
        f_ffree: 0,
        f_fsid: [0, 1],
        f_namelen: s.name_len as isize,
        f_frsize: 0,
        f_flags: 0,
        f_spare: [0, 0, 0, 0],
    }
}

/// The record depends on the VFS statistics alone: two `statfs` calls on a
/// filesystem whose statistics did not change return identical records.
pub proof fn lemma_statfs_repeatable(a: StatFs, b: StatFs)
    requires
        a == b,
    ensures
        spec_fsstat(a) == spec_fsstat(b),
{
}

} // verus!
