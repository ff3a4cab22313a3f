//! The decisions of the path- and descriptor-based syscall handlers, taking
//! the outcomes of the VFS calls they depend on as arguments.

use std::sync::Arc;
use vstd::prelude::*;
use vstd::string::*;
use crate::error::FsError;
use crate::fd_table::FdTable;
use crate::file::{FileLike, KFile};
use crate::flags::MOUNT_FLAGS_MASK;

verus! {

/// A directory as the VFS names it: its directory entry and its mount.
#[derive(Clone, Copy, PartialEq, Eq, Structural, Debug)]
pub struct DirRef {
    pub dentry: u64,
    pub mount: u64,
}

/// `mount(special, dir, fs_type, flags, data)`, given the resolution of
/// `special` and of `dir`: succeeds with 0 exactly when both resolved, the
/// flags are recognised and `data` is empty; the mount table itself is not
/// changed. Fails with -1 otherwise.
pub fn sys_mount(
    special: &Result<String, FsError>,
    dir: &Result<String, FsError>,
    flags: usize,
    data: &str,
) -> (r: isize)
    ensures
        r == 0 <==> special is Ok && dir is Ok && flags & !MOUNT_FLAGS_MASK == 0 && data@.len() == 0,
        r != 0 ==> r == -1,
{
    if data.unicode_len() != 0 {
        return -1;
    }
    if special.is_err() || dir.is_err() {
        return -1;
    }
    if flags & !MOUNT_FLAGS_MASK != 0 {
        return -1;
    }
    0
}

/// `umount(dir)`, given the resolution of `dir`: 0 when it resolved, -1
/// otherwise; the mount table itself is not changed.
pub fn sys_umount(dir: &Result<String, FsError>) -> (r: isize)
    ensures
        dir is Ok ==> r == 0,
        dir is Err ==> r == -1,
{
    if dir.is_ok() {
        0
    } else {
        -1
    }
}

/// Ends `openat`: a file that the VFS opened goes into the table under the
/// smallest free handle, which is the result; a failed open, or a full
/// table, gives -1 and leaves the table unchanged.
pub fn open_finish(table: &mut FdTable, opened: Result<KFile, FsError>) -> (r: isize)
    requires
        old(table).wf(),
        old(table).capacity() <= isize::MAX,
    ensures
        final(table).wf(),
        final(table).capacity() == old(table).capacity(),
        r == -1 || 0 <= r < old(table).capacity(),
        r == -1 ==> final(table)@ == old(table)@,
        opened is Err ==> r == -1,
        opened matches Ok(k) ==> {
            &&& (exists|h: int| 0 <= h < old(table).capacity() && !old(table)@.contains_key(h))
                <==> r >= 0
            &&& r >= 0 ==> {
                &&& !old(table)@.contains_key(r as int)
                &&& forall|h: int| 0 <= h < r ==> old(table)@.contains_key(h)
                &&& final(table)@ == old(table)@.insert(r as int, FileLike::NormalFile(Arc::new(k)))
            }
        },
{
    match opened {
        Ok(k) => match table.add(FileLike::NormalFile(Arc::new(k))) {
            Ok(h) => h as isize,
            Err(_) => -1,
        },
        Err(_) => -1,
    }
}

/// Ends `chdir`, given what the VFS opened: the working directory becomes
/// the opened entry, directory entry and mount together, when it is a
/// directory (result 0); otherwise nothing changes and the result is -1.
pub fn chdir_finish(cwd: &mut DirRef, opened: Result<(DirRef, bool), FsError>) -> (r: isize)
    ensures
        opened matches Ok((d, is_dir)) ==> (is_dir ==> r == 0 && *final(cwd) == d),
        !(opened matches Ok((_, is_dir)) && is_dir) ==> r == -1 && *final(cwd) == *old(cwd),
{
    match opened {
        Ok((d, is_dir)) => {
            if is_dir {
                *cwd = d;
                0
            } else {
                -1
            }
        },
        Err(_) => -1,
    }
}

/// The single contiguous buffer that an xattr call hands to the VFS: the
/// first fragment of the user buffer, or an empty one when the user buffer
/// has no fragment (a zero-length buffer, used to query the size needed).
pub fn xattr_value_buffer(frags: Vec<Vec<u8>>) -> (r: Vec<u8>)
    ensures
        frags@.len() > 0 ==> r == frags@[0],
        frags@.len() == 0 ==> r@ == Seq::<u8>::empty(),
{
    let mut frags = frags;
    if frags.len() > 0 {
        frags.swap_remove(0)
    } else {
        Vec::new()
    }
}

} // verus!
