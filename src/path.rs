//! The path-resolution protocol shared by every path-taking syscall.

use vstd::prelude::*;
use vstd::string::*;
use crate::error::FsError;
use crate::fd_table::FdTable;
use crate::file::FileLike;

verus! {

/// The directory-descriptor sentinel meaning "the current working directory".
pub const AT_FDCWD: isize = -100;

/// Where a relative walk starts.
#[derive(Clone, Copy, PartialEq, Eq, Structural, Debug)]
pub enum LookupStart {
    /// The process's current working directory and its mount.
    Cwd,
    /// The directory entry and mount of the open regular file with this VFS
    /// identity.
    File(u64),
}

/// What is left to do to resolve a path.
#[derive(Debug)]
pub enum PathResolution {
    /// The path is absolute: it is used as given, from the global root.
    Absolute(String),
    /// The path is relative: the VFS walks it from `start`.
    Relative { start: LookupStart, path: String },
}

/// Whether a path is absolute: it begins with `/`.
pub open spec fn is_absolute(p: Seq<char>) -> bool {
    p.len() > 0 && p[0] == '/'
}

/// Whether `path` begins with `/`.
pub fn path_is_absolute(path: &str) -> (r: bool)
    ensures
        r == is_absolute(path@),
{
    let n = path.unicode_len();
    n > 0 && path.get_char(0) == '/'
}

/// The starting point of a relative walk from directory descriptor `fd`:
/// the working directory for `AT_FDCWD`, else the regular file open under
/// `fd`; `None` when `fd` is not an open regular file.
pub open spec fn spec_start(t: Map<int, FileLike>, fd: isize) -> Option<LookupStart> {
    if fd == AT_FDCWD {
        Some(LookupStart::Cwd)
    } else if fd >= 0 && t.contains_key(fd as int) && t[fd as int] is NormalFile {
        Some(LookupStart::File(t[fd as int]->NormalFile_0.id))
    } else {
        None
    }
}

/// Decides how `path` is resolved relative to directory descriptor `fd`:
/// an absolute path ignores `fd`; a relative one starts at the working
/// directory for `AT_FDCWD`, or at the regular file open under `fd`, and
/// fails with `BadDescriptor` when `fd` is neither.
pub fn user_path_at(table: &FdTable, fd: isize, path: &str) -> (r: Result<PathResolution, FsError>)
    ensures
        is_absolute(path@) ==> (r matches Ok(PathResolution::Absolute(s)) && s@ == path@),
        !is_absolute(path@) && spec_start(table@, fd) is Some ==> (r matches Ok(
            PathResolution::Relative { start, path: s },
        ) && start == spec_start(table@, fd)->Some_0 && s@ == path@),
        !is_absolute(path@) && spec_start(table@, fd) is None ==> r == Err::<PathResolution, FsError>(
            FsError::BadDescriptor,
        ),
{
    if path_is_absolute(path) {
        return Ok(PathResolution::Absolute(path.to_owned()));
    }
    if fd == AT_FDCWD {
        return Ok(PathResolution::Relative { start: LookupStart::Cwd, path: path.to_owned() });
    }
    if fd < 0 {
        return Err(FsError::BadDescriptor);
    }
    match table.get(fd as usize) {
        Some(f) => match &*f {
            FileLike::NormalFile(k) => Ok(
                PathResolution::Relative { start: LookupStart::File(k.id), path: path.to_owned() },
            ),
            FileLike::Socket(_) => Err(FsError::BadDescriptor),
        },
        None => Err(FsError::BadDescriptor),
    }
}

/// Completes a resolution: an absolute path is the result itself; for a
/// relative one, the outcome of the VFS walk (`walked`), any failure of
/// which becomes `LookupError`.
pub fn resolve_finish(res: PathResolution, walked: Result<String, FsError>) -> (r: Result<String, FsError>)
    ensures
        res matches PathResolution::Absolute(p) ==> r == Ok::<String, FsError>(p),
        res is Relative ==> (match walked {
            Ok(p) => r == Ok::<String, FsError>(p),
            Err(_) => r == Err::<String, FsError>(FsError::LookupError),
        }),
{
    match res {
        PathResolution::Absolute(p) => Ok(p),
        PathResolution::Relative { .. } => match walked {
            Ok(p) => Ok(p),
            Err(_) => Err(FsError::LookupError),
        },
    }
}

} // verus!
