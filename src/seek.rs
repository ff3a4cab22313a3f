//! `lseek`: translating a (whence, offset) pair into a new file position.

use vstd::prelude::*;
use crate::error::FsError;
use crate::fd_table::{apply_update, FdTable, FileUpdate};
use crate::file::FileLike;
use crate::io::normal_file_at;

verus! {

/// Seek from the start of the file.
pub const SEEK_SET: usize = 0;
/// Seek from the current position.
pub const SEEK_CUR: usize = 1;
/// Seek from the end of the file.
pub const SEEK_END: usize = 2;

/// A seek request, relative to one of three origins.
#[derive(Clone, Copy, PartialEq, Eq, Structural, Debug)]
pub enum SeekFrom {
    Start(u64),
    Current(i64),
    End(i64),
}

/// The request that `whence` and `offset` describe: `None` for an unknown
/// `whence`, or a negative offset from the start.
pub open spec fn spec_seek_from(whence: usize, offset: isize) -> Option<SeekFrom> {
    if whence == SEEK_SET && offset >= 0 {
        Some(SeekFrom::Start(offset as u64))
    } else if whence == SEEK_CUR {
        Some(SeekFrom::Current(offset as i64))
    } else if whence == SEEK_END {
        Some(SeekFrom::End(offset as i64))
    } else {
        None
    }
}

/// Decodes the `whence` and `offset` arguments of `lseek`; an unknown
/// `whence`, or a negative offset from the start, is `InvalidArgument`.
pub fn seek_from(whence: usize, offset: isize) -> (r: Result<SeekFrom, FsError>)
    ensures
        r is Ok <==> spec_seek_from(whence, offset) is Some,
        r matches Ok(s) ==> s == spec_seek_from(whence, offset)->Some_0,
        r matches Err(e) ==> e == FsError::InvalidArgument,
{
    if whence == SEEK_SET && offset >= 0 {
        Ok(SeekFrom::Start(offset as u64))
    } else if whence == SEEK_CUR {
        Ok(SeekFrom::Current(offset as i64))
    } else if whence == SEEK_END {
        Ok(SeekFrom::End(offset as i64))
    } else {
        Err(FsError::InvalidArgument)
    }
}

/// The position that `s` asks for, from position `pos` in a file of `size`
/// bytes; `None` when it is negative or beyond the largest file offset.
pub open spec fn spec_seek(pos: u64, size: u64, s: SeekFrom) -> Option<u64> {
    let target: int = match s {
        SeekFrom::Start(o) => o as int,
        SeekFrom::Current(o) => pos + o,
        SeekFrom::End(o) => size + o,
    };
    if 0 <= target <= i64::MAX {
        Some(target as u64)
    } else {
        None
    }
}

/// The position that `s` asks for, from position `pos` in a file of `size`
/// bytes; a target that is negative or beyond the largest file offset is
/// `InvalidArgument`.
pub fn seek_target(pos: u64, size: u64, s: SeekFrom) -> (r: Result<u64, FsError>)
    ensures
        r is Ok <==> spec_seek(pos, size, s) is Some,
        r matches Ok(p) ==> p == spec_seek(pos, size, s)->Some_0,
        r matches Err(e) ==> e == FsError::InvalidArgument,
{
    let max: u64 = 0x7fff_ffff_ffff_ffff;
    match s {
        SeekFrom::Start(o) => if o <= max {
            Ok(o)
        } else {
            Err(FsError::InvalidArgument)
        },
        SeekFrom::Current(o) => offset_by(pos, o),
        SeekFrom::End(o) => offset_by(size, o),
    }
}

fn offset_by(base: u64, o: i64) -> (r: Result<u64, FsError>)
    ensures
        0 <= base + o <= i64::MAX ==> r == Ok::<u64, FsError>((base + o) as u64),
        !(0 <= base + o <= i64::MAX) ==> r == Err::<u64, FsError>(FsError::InvalidArgument),
{
    let max: u64 = 0x7fff_ffff_ffff_ffff;
    if o >= 0 {
        let d = o as u64;
        if base <= max && d <= max - base {
            Ok(base + d)
        } else {
            Err(FsError::InvalidArgument)
        }
    } else {
        let d: u64 = if o == i64::MIN {
            0x8000_0000_0000_0000
        } else {
            (-o) as u64
        };
        if d <= base && base - d <= max {
            Ok(base - d)
        } else {
            Err(FsError::InvalidArgument)
        }
    }
}

/// `lseek` on `fd`: the new position, which every descriptor on the same
/// VFS file takes. `size` is the file's size, for `SEEK_END`. Fails with
/// `BadDescriptor` when `fd` is not an open regular file, and with
/// `InvalidArgument` for a bad `whence` or target; the table is then
/// unchanged.
pub fn lseek(table: &mut FdTable, fd: usize, offset: isize, whence: usize, size: u64) -> (r: Result<
    u64,
    FsError,
>)
    requires
        old(table).wf(),
    ensures
        final(table).wf(),
        final(table).capacity() == old(table).capacity(),
        !(old(table)@.contains_key(fd as int) && old(table)@[fd as int] is NormalFile) ==> r
            == Err::<u64, FsError>(FsError::BadDescriptor),
        old(table)@.contains_key(fd as int) && old(table)@[fd as int] is NormalFile ==> ({
            let k = old(table)@[fd as int]->NormalFile_0;
            let target = match spec_seek_from(whence, offset) {
                Some(s) => spec_seek(k.pos, size, s),
                None => None,
            };
            &&& r is Ok <==> target is Some
            &&& r matches Ok(p) ==> p == target->Some_0 && final(table)@ == old(table)@.map_values(
                |f: FileLike| apply_update(f, FileUpdate::Position { file: k.id, pos: p }),
            )
            &&& r matches Err(e) ==> e == FsError::InvalidArgument
        }),
        r is Err ==> final(table)@ == old(table)@,
{
    let (id, pos) = match normal_file_at(table, fd) {
        Ok(v) => v,
        Err(e) => return Err(e),
    };
    let s = match seek_from(whence, offset) {
        Ok(s) => s,
        Err(e) => return Err(e),
    };
    let p = match seek_target(pos, size, s) {
        Ok(p) => p,
        Err(e) => return Err(e),
    };
    let u = FileUpdate::Position { file: id, pos: p };
    table.update_file(&u);
    Ok(p)
}

/// After `lseek(fd, n, SEEK_SET)` succeeds, `lseek(fd, 0, SEEK_CUR)` answers
/// `n`, whatever the file's size.
pub proof fn lemma_seek_set_then_cur(t: Map<int, FileLike>, fd: int, n: isize, size1: u64, size2: u64)
    requires
        t.contains_key(fd),
        t[fd] is NormalFile,
        0 <= n,
    ensures
        ({
            let k = t[fd]->NormalFile_0;
            let p = spec_seek(k.pos, size1, spec_seek_from(SEEK_SET, n)->Some_0);
            let t1 = t.map_values(
                |f: FileLike| apply_update(f, FileUpdate::Position { file: k.id, pos: n as u64 }),
            );
            &&& spec_seek_from(SEEK_SET, n) is Some
            &&& p == Some(n as u64)
            &&& t1.contains_key(fd)
            &&& t1[fd] is NormalFile
            &&& spec_seek(t1[fd]->NormalFile_0.pos, size2, spec_seek_from(SEEK_CUR, 0)->Some_0) == Some(n as u64)
        }),
{
}

/// After a write of `n` bytes from position `p` (transfer `t`, whose end
/// every descriptor took), seeking back by `n` from the current position
/// returns to `p`: a read then starts where the write started.
pub proof fn lemma_write_then_seek_back(t: crate::io::Transfer, size: u64)
    requires
        t.wf(),
        t.offset <= i64::MAX,
        t.count <= isize::MAX,
    ensures
        spec_seek_from(SEEK_CUR, (-(t.count as int)) as isize) is Some,
        spec_seek(t.offset, size, spec_seek_from(SEEK_CUR, (-(t.count as int)) as isize)->Some_0) == Some(t.start),
{
}

} // verus!
