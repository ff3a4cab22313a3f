//! Accounting for transfers between files and user buffers that the
//! process's address space may split into several fragments.

use vstd::prelude::*;
use crate::error::FsError;
use crate::fd_table::{FdTable, FileUpdate};
use crate::file::FileLike;

verus! {

/// The sum of a sequence of byte counts.
pub open spec fn total(s: Seq<usize>) -> int
    decreases s.len(),
{
    if s.len() == 0 {
        0
    } else {
        total(s.drop_last()) + s.last()
    }
}

/// The progress of one read or write: where it started, the file offset of
/// the next step, and the bytes moved so far, one entry per step.
pub struct Transfer {
    pub start: u64,
    pub offset: u64,
    pub count: usize,
    pub steps: Ghost<Seq<usize>>,
}

impl Transfer {
    /// Each step moved its bytes to the offset where the previous one ended.
    pub open spec fn wf(&self) -> bool {
        &&& self.count == total(self.steps@)
        &&& self.offset == self.start + self.count
    }

    /// A transfer that starts at file offset `start`.
    pub fn new(start: u64) -> (r: Transfer)
        ensures
            r.wf(),
            r.start == start,
            r.offset == start,
            r.count == 0,
            r.steps@ == Seq::<usize>::empty(),
    {
        Transfer { start, offset: start, count: 0, steps: Ghost(Seq::empty()) }
    }

    /// Records a step that moved `moved` bytes: the next step starts that
    /// many bytes further, and the count grows by as much.
    pub fn advance(&mut self, moved: usize)
        requires
            old(self).wf(),
            old(self).count + moved <= usize::MAX,
            old(self).offset + moved <= u64::MAX,
        ensures
            final(self).wf(),
            final(self).start == old(self).start,
            final(self).steps@ == old(self).steps@.push(moved),
            final(self).count == old(self).count + moved,
            final(self).offset == old(self).offset + moved,
    {
        self.count = self.count + moved;
        self.offset = self.offset + moved as u64;
        proof {
            let s = self.steps@.push(moved);
            assert(s.drop_last() =~= self.steps@);
            self.steps = Ghost(s);
        }
    }
}

/// The VFS identity and the current position of the regular file open
/// under `fd`, or `BadDescriptor`.
pub fn normal_file_at(table: &FdTable, fd: usize) -> (r: Result<(u64, u64), FsError>)
    ensures
        table@.contains_key(fd as int) && table@[fd as int] is NormalFile ==> r == Ok::<
            (u64, u64),
            FsError,
        >((table@[fd as int]->NormalFile_0.id, table@[fd as int]->NormalFile_0.pos)),
        !(table@.contains_key(fd as int) && table@[fd as int] is NormalFile) ==> r == Err::<
            (u64, u64),
            FsError,
        >(FsError::BadDescriptor),
{
    match table.get(fd) {
        Some(f) => match &*f {
            FileLike::NormalFile(k) => Ok((k.id, k.pos)),
            FileLike::Socket(_) => Err(FsError::BadDescriptor),
        },
        None => Err(FsError::BadDescriptor),
    }
}

/// Starts a `read` or `write` on `fd` at the file's current position.
pub fn transfer_begin(table: &FdTable, fd: usize) -> (r: Result<(u64, Transfer), FsError>)
    ensures
        table@.contains_key(fd as int) && table@[fd as int] is NormalFile <==> r is Ok,
        r matches Ok((id, t)) ==> {
            &&& id == table@[fd as int]->NormalFile_0.id
            &&& t.wf()
            &&& t.start == table@[fd as int]->NormalFile_0.pos
            &&& t.count == 0
        },
        r matches Err(e) ==> e == FsError::BadDescriptor,
{
    match normal_file_at(table, fd) {
        Ok((id, pos)) => Ok((id, Transfer::new(pos))),
        Err(e) => Err(e),
    }
}

/// Ends a `read` or `write`: every descriptor on VFS file handle `id` moves to
/// where the transfer ended, and the syscall returns the bytes moved.
pub fn transfer_commit(table: &mut FdTable, id: u64, t: &Transfer) -> (r: isize)
    requires
        old(table).wf(),
        t.wf(),
        t.count <= isize::MAX,
    ensures
        final(table).wf(),
        final(table).capacity() == old(table).capacity(),
        final(table)@ == old(table)@.map_values(
            |f: FileLike| crate::fd_table::apply_update(f, FileUpdate::Position { file: id, pos: t.offset }),
        ),
        r == t.count,
{
    let u = FileUpdate::Position { file: id, pos: t.offset };
    table.update_file(&u);
    t.count as isize
}

/// One entry of a user I/O vector: a base address and a length.
#[derive(Clone, Copy, PartialEq, Eq, Structural, Debug)]
pub struct IoVec {
    pub base: usize,
    pub len: usize,
}

/// Whether `readv` (`is_read`) or `writev` passes over `v`: an entry with a
/// null base is always skipped, a zero-length one by `readv` too.
pub open spec fn iov_skipped(v: IoVec, is_read: bool) -> bool {
    v.base == 0 || (is_read && v.len == 0)
}

/// The entries of `iovs` that take part in the transfer, in order.
pub open spec fn spec_iov_plan(iovs: Seq<IoVec>, is_read: bool) -> Seq<IoVec> {
    iovs.filter(|v: IoVec| !iov_skipped(v, is_read))
}

/// The entries of `iovs` that `readv` (`is_read`) or `writev` transfers,
/// in order; skipped entries contribute nothing and cause no error.
pub fn iov_plan(iovs: &Vec<IoVec>, is_read: bool) -> (r: Vec<IoVec>)
    ensures
        r@ == spec_iov_plan(iovs@, is_read),
{
    let mut r: Vec<IoVec> = Vec::new();
    let mut i: usize = 0;
    while i < iovs.len()
        invariant
            0 <= i <= iovs@.len(),
            r@ == spec_iov_plan(iovs@.subrange(0, i as int), is_read),
        decreases iovs@.len() - i,
    {
        let v = iovs[i];
        proof {
            let s = iovs@.subrange(0, i as int + 1);
            assert(s.drop_last() =~= iovs@.subrange(0, i as int));
            reveal(Seq::filter);
        }
        if !(v.base == 0 || (is_read && v.len == 0)) {
            r.push(v);
        }
        i = i + 1;
    }
    assert(iovs@.subrange(0, iovs@.len() as int) =~= iovs@);
    r
}

/// An entry with a null base, wherever it stands in an I/O vector, changes
/// nothing in what `readv` or `writev` transfers.
pub proof fn lemma_null_iov_skipped(a: Seq<IoVec>, b: Seq<IoVec>, v: IoVec, is_read: bool)
    requires
        v.base == 0,
    ensures
        spec_iov_plan(a + seq![v] + b, is_read) == spec_iov_plan(a + b, is_read),
{
    let p = |x: IoVec| !iov_skipped(x, is_read);
    Seq::filter_distributes_over_add(a + seq![v], b, p);
    Seq::filter_distributes_over_add(a, seq![v], p);
    Seq::filter_distributes_over_add(a, b, p);
    reveal_with_fuel(Seq::filter, 2);
    assert(seq![v].drop_last() =~= Seq::<IoVec>::empty());
    assert(seq![v].filter(p) =~= Seq::<IoVec>::empty());
    assert(a.filter(p) + Seq::<IoVec>::empty() =~= a.filter(p));
}

/// Where fragment `i` of a user buffer starts within the whole buffer.
pub open spec fn frag_offset(frags: Seq<Vec<u8>>, i: int) -> int
    decreases i,
{
    if i <= 0 {
        0
    } else {
        frag_offset(frags, i - 1) + frags[i - 1]@.len()
    }
}

/// Byte `j` of fragment `i` after `src` was copied to the front of the
/// buffer that `frags` splits: a byte of `src` where one lands there, else
/// the old byte.
pub open spec fn copied_byte(src: Seq<u8>, frags: Seq<Vec<u8>>, i: int, j: int) -> u8 {
    if frag_offset(frags, i) + j < src.len() {
        src[frag_offset(frags, i) + j]
    } else {
        frags[i]@[j]
    }
}

proof fn lemma_frag_offset_monotone(frags: Seq<Vec<u8>>, i: int, k: int)
    requires
        0 <= i <= k,
    ensures
        frag_offset(frags, i) <= frag_offset(frags, k),
    decreases k - i,
{
    if i < k {
        lemma_frag_offset_monotone(frags, i, k - 1);
    }
}

/// Copies `src` to the front of the user buffer that `frags` splits into
/// fragments, as far as it fits, and returns the number of bytes copied.
/// Fragment lengths do not change; bytes past the copy keep their value.
pub fn copy_to_fragments(src: &Vec<u8>, frags: &mut Vec<Vec<u8>>) -> (n: usize)
    ensures
        final(frags)@.len() == old(frags)@.len(),
        forall|i: int| 0 <= i < old(frags)@.len() ==> #[trigger] final(frags)@[i]@.len() == old(frags)@[i]@.len(),
        forall|i: int, j: int| 0 <= i < old(frags)@.len() && 0 <= j < old(frags)@[i]@.len()
            ==> #[trigger] final(frags)@[i]@[j] == copied_byte(src@, old(frags)@, i, j),
        n == if src@.len() < frag_offset(old(frags)@, old(frags)@.len() as int) {
            src@.len() as int
        } else {
            frag_offset(old(frags)@, old(frags)@.len() as int)
        },
{
    let ghost orig = frags@;
    let mut copied: usize = 0;
    let mut i: usize = 0;
    while i < frags.len()
        invariant
            0 <= i <= frags@.len(),
            frags@.len() == orig.len(),
            copied <= src@.len(),
            copied == if src@.len() < frag_offset(orig, i as int) {
                src@.len() as int
            } else {
                frag_offset(orig, i as int)
            },
            forall|k: int| 0 <= k < orig.len() ==> #[trigger] frags@[k]@.len() == orig[k]@.len(),
            forall|k: int, j: int| 0 <= k < i && 0 <= j < orig[k]@.len()
                ==> #[trigger] frags@[k]@[j] == copied_byte(src@, orig, k, j),
            forall|k: int| i <= k < orig.len() ==> #[trigger] frags@[k] == orig[k],
        decreases frags@.len() - i,
    {
        let mut frag: Vec<u8> = Vec::new();
        std::mem::swap(&mut frag, &mut frags[i]);
        let room = src.len() - copied;
        let n_copy = if frag.len() < room { frag.len() } else { room };
        let mut j: usize = 0;
        while j < n_copy
            invariant
                0 <= j <= n_copy,
                i < orig.len(),
                src@.len() == src.len(),
                n_copy <= frag@.len(),
                copied + n_copy <= src@.len(),
                frag@.len() == orig[i as int]@.len(),
                forall|m: int| 0 <= m < j ==> #[trigger] frag@[m] == src@[copied + m],
                forall|m: int| j <= m < frag@.len() ==> #[trigger] frag@[m] == orig[i as int]@[m],
            decreases n_copy - j,
        {
            frag.set(j, src[copied + j]);
            j = j + 1;
        }
        proof {
            lemma_frag_offset_monotone(orig, i as int, i as int + 1);
            assert forall|m: int| 0 <= m < orig[i as int]@.len()
                implies #[trigger] frag@[m] == copied_byte(src@, orig, i as int, m) by {
                if copied < src@.len() {
                    assert(copied == frag_offset(orig, i as int));
                } else {
                    assert(frag_offset(orig, i as int) >= src@.len());
                }
            }
        }
        std::mem::swap(&mut frag, &mut frags[i]);
        copied = copied + n_copy;
        i = i + 1;
    }
    copied
}

} // verus!
