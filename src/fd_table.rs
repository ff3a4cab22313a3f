//! Per-process descriptor tables.

use std::sync::Arc;
use vstd::prelude::*;
use crate::error::FsError;
use crate::file::{FileLike, KFile};

verus! {

/// A change to the open regular files that share something.
#[derive(Debug)]
pub enum FileUpdate {
    /// Set the byte position of every descriptor on VFS file handle `file`.
    Position { file: u64, pos: u64 },
    /// Record a deferred unlink of `path` on every descriptor on VFS node
    /// `node`, unless one is already pending there.
    Unlink { node: u64, path: String },
}

/// Whether `u` applies to the regular file `k`.
pub open spec fn targets(k: KFile, u: FileUpdate) -> bool {
    match u {
        FileUpdate::Position { file, .. } => k.id == file,
        FileUpdate::Unlink { node, .. } => k.node == node,
    }
}

/// The regular file `k` after `u`, where `u` applies to it.
pub open spec fn updated(k: KFile, u: FileUpdate) -> KFile {
    match u {
        FileUpdate::Position { pos, .. } => KFile { pos: pos, ..k },
        FileUpdate::Unlink { path, .. } => if k.unlink_path.is_none() {
            KFile { unlink_path: Some(path), ..k }
        } else {
            k
        },
    }
}

/// The object `f` after `u`.
pub open spec fn apply_update(f: FileLike, u: FileUpdate) -> FileLike {
    match f {
        FileLike::NormalFile(k) => if targets(*k, u) {
            FileLike::NormalFile(Arc::new(updated(*k, u)))
        } else {
            f
        },
        FileLike::Socket(_) => f,
    }
}

/// Whether `f` is a regular file open on VFS node `node`.
pub open spec fn refers_to(f: FileLike, node: u64) -> bool {
    f is NormalFile && f->NormalFile_0.node == node
}

/// Whether `f` is a regular file on VFS file handle `id`.
pub open spec fn holds_handle(f: FileLike, id: u64) -> bool {
    f is NormalFile && f->NormalFile_0.id == id
}

/// A mapping from small non-negative handles to open objects, with at most
/// `max_fds` handles.
pub struct FdTable {
    slots: Vec<Option<Arc<FileLike>>>,
    max_fds: usize,
}

impl FdTable {
    /// The open handles and what each refers to.
    pub closed spec fn view(&self) -> Map<int, FileLike> {
        Map::new(
            |h: int| 0 <= h < self.slots@.len() && self.slots@[h] is Some,
            |h: int| *self.slots@[h]->Some_0,
        )
    }

    /// The largest number of handles this table holds.
    pub closed spec fn capacity(&self) -> nat {
        self.max_fds as nat
    }

    pub closed spec fn wf(&self) -> bool {
        self.slots@.len() <= self.max_fds
    }

    /// An empty table with room for `max_fds` handles.
    pub fn new(max_fds: usize) -> (r: FdTable)
        ensures
            r.wf(),
            r@ == Map::<int, FileLike>::empty(),
            r.capacity() == max_fds,
    {
        let r = FdTable { slots: Vec::new(), max_fds };
        assert(r@ =~= Map::<int, FileLike>::empty());
        r
    }

    /// The largest number of handles this table holds.
    pub fn max_fds(&self) -> (r: usize)
        ensures
            r == self.capacity(),
    {
        self.max_fds
    }

    /// Inserts `obj` under the smallest handle that is not in use, or fails
    /// with `TableFull` when every handle below the capacity is in use.
    pub fn add(&mut self, obj: FileLike) -> (r: Result<usize, FsError>)
        requires
            old(self).wf(),
        ensures
            final(self).wf(),
            final(self).capacity() == old(self).capacity(),
            (exists|h: int| 0 <= h < old(self).capacity() && !old(self)@.contains_key(h))
                <==> r is Ok,
            r matches Ok(h) ==> {
                &&& h < old(self).capacity()
                &&& !old(self)@.contains_key(h as int)
                &&& forall|k: int| 0 <= k < h ==> old(self)@.contains_key(k)
                &&& final(self)@ == old(self)@.insert(h as int, obj)
            },
            r matches Err(e) ==> e == FsError::TableFull && final(self)@ == old(self)@,
    {
        let mut i: usize = 0;
        while i < self.slots.len()
            invariant
                self.wf(),
                self.max_fds == old(self).max_fds,
                self.slots@ == old(self).slots@,
                0 <= i <= self.slots@.len(),
                forall|k: int| 0 <= k < i ==> self.slots@[k] is Some,
            decreases self.slots@.len() - i,
        {
            if self.slots[i].is_none() {
                let ghost before = self@;
                assert(!old(self)@.contains_key(i as int));
                self.slots.set(i, Some(Arc::new(obj)));
                assert(self@ =~= before.insert(i as int, obj));
                return Ok(i);
            }
            i = i + 1;
        }
        if self.slots.len() < self.max_fds {
            let ghost before = self@;
            let h = self.slots.len();
            assert(!old(self)@.contains_key(h as int));
            self.slots.push(Some(Arc::new(obj)));
            assert(self@ =~= before.insert(h as int, obj));
            Ok(h)
        } else {
            assert forall|h: int| 0 <= h < self.capacity() implies self@.contains_key(h) by {}
            Err(FsError::TableFull)
        }
    }

    /// The object under `fd`, if `fd` is open.
    pub fn get(&self, fd: usize) -> (r: Option<Arc<FileLike>>)
        ensures
            r is Some <==> self@.contains_key(fd as int),
            r matches Some(f) ==> *f == self@[fd as int],
    {
        if fd < self.slots.len() {
            match &self.slots[fd] {
                Some(f) => Some(Arc::new(copy_file_like(f))),
                None => None,
            }
        } else {
            None
        }
    }

    /// Detaches `fd` and hands back what it referred to, or fails with
    /// `BadDescriptor` when `fd` is not open.
    pub fn remove(&mut self, fd: usize) -> (r: Result<Arc<FileLike>, FsError>)
        requires
            old(self).wf(),
        ensures
            final(self).wf(),
            final(self).capacity() == old(self).capacity(),
            old(self)@.contains_key(fd as int) <==> r is Ok,
            r matches Ok(f) ==> *f == old(self)@[fd as int]
                && final(self)@ == old(self)@.remove(fd as int),
            r matches Err(e) ==> e == FsError::BadDescriptor && final(self)@ == old(self)@,
    {
        if fd < self.slots.len() && self.slots[fd].is_some() {
            let ghost before = self@;
            let mut taken: Option<Arc<FileLike>> = None;
            std::mem::swap(&mut taken, &mut self.slots[fd]);
            assert(self@ =~= before.remove(fd as int));
            match taken {
                Some(f) => Ok(f),
                None => Err(FsError::BadDescriptor),
            }
        } else {
            Err(FsError::BadDescriptor)
        }
    }

    /// The smallest handle whose object is a regular file open on VFS node
    /// `node`, if any.
    pub fn find_normal_file(&self, node: u64) -> (r: Option<usize>)
        ensures
            r is None <==> !exists|h: int| self@.contains_key(h) && refers_to(self@[h], node),
            r matches Some(h) ==> {
                &&& self@.contains_key(h as int)
                &&& refers_to(self@[h as int], node)
                &&& forall|k: int| 0 <= k < h && self@.contains_key(k) ==> !refers_to(self@[k], node)
            },
    {
        let mut i: usize = 0;
        while i < self.slots.len()
            invariant
                0 <= i <= self.slots@.len(),
                forall|k: int| 0 <= k < i && self@.contains_key(k) ==> !refers_to(self@[k], node),
            decreases self.slots@.len() - i,
        {
            match &self.slots[i] {
                Some(f) => {
                    match &**f {
                        FileLike::NormalFile(k) => {
                            if k.node == node {
                                assert(self@.contains_key(i as int) && refers_to(self@[i as int], node));
                                return Some(i);
                            }
                        },
                        FileLike::Socket(_) => {},
                    }
                },
                None => {},
            }
            i = i + 1;
        }
        assert forall|h: int| self@.contains_key(h) implies !refers_to(self@[h], node) by {}
        None
    }

    /// Whether some handle's object is a regular file on VFS file handle `id`.
    pub fn has_handle(&self, id: u64) -> (r: bool)
        ensures
            r == exists|h: int| self@.contains_key(h) && holds_handle(self@[h], id),
    {
        let mut i: usize = 0;
        while i < self.slots.len()
            invariant
                0 <= i <= self.slots@.len(),
                forall|k: int| 0 <= k < i && self@.contains_key(k) ==> !holds_handle(self@[k], id),
            decreases self.slots@.len() - i,
        {
            match &self.slots[i] {
                Some(f) => {
                    match &**f {
                        FileLike::NormalFile(k) => {
                            if k.id == id {
                                assert(self@.contains_key(i as int) && holds_handle(self@[i as int], id));
                                return true;
                            }
                        },
                        FileLike::Socket(_) => {},
                    }
                },
                None => {},
            }
            i = i + 1;
        }
        assert forall|h: int| self@.contains_key(h) implies !holds_handle(self@[h], id) by {}
        false
    }

    /// Applies `u` to every open regular file it targets: all descriptors
    /// that share a VFS file handle see the same position, and all that
    /// share a VFS node the same pending unlink.
    pub fn update_file(&mut self, u: &FileUpdate)
        requires
            old(self).wf(),
        ensures
            final(self).wf(),
            final(self).capacity() == old(self).capacity(),
            final(self)@ == old(self)@.map_values(|f: FileLike| apply_update(f, *u)),
    {
        let ghost target = old(self)@.map_values(|f: FileLike| apply_update(f, *u));
        let mut i: usize = 0;
        while i < self.slots.len()
            invariant
                self.wf(),
                self.max_fds == old(self).max_fds,
                self.slots@.len() == old(self).slots@.len(),
                0 <= i <= self.slots@.len(),
                target == old(self)@.map_values(|f: FileLike| apply_update(f, *u)),
                forall|k: int| 0 <= k < self.slots@.len() ==> (self.slots@[k] is Some <==> old(self).slots@[k] is Some),
                forall|k: int| 0 <= k < i && self.slots@[k] is Some ==>
                    *self.slots@[k]->Some_0 == apply_update(*old(self).slots@[k]->Some_0, *u),
                forall|k: int| i <= k < self.slots@.len() ==> self.slots@[k] == old(self).slots@[k],
            decreases self.slots@.len() - i,
        {
            let next = match &self.slots[i] {
                Some(f) => Some(Arc::new(apply_update_exec(f, u))),
                None => None,
            };
            self.slots.set(i, next);
            i = i + 1;
        }
        assert(self@ =~= target);
    }
}

/// The object `f` after `u`.
pub fn apply_update_exec(f: &FileLike, u: &FileUpdate) -> (r: FileLike)
    ensures
        r == apply_update(*f, *u),
{
    match f {
        FileLike::NormalFile(k) => {
            let hit = match u {
                FileUpdate::Position { file, .. } => k.id == *file,
                FileUpdate::Unlink { node, .. } => k.node == *node,
            };
            if hit {
                let mut nk = k.duplicate();
                match u {
                    FileUpdate::Position { pos, .. } => {
                        nk.pos = *pos;
                    },
                    FileUpdate::Unlink { path, .. } => {
                        if nk.unlink_path.is_none() {
                            nk.unlink_path = Some(path.clone());
                        }
                    },
                }
                FileLike::NormalFile(Arc::new(nk))
            } else {
                copy_file_like(f)
            }
        },
        FileLike::Socket(_) => copy_file_like(f),
    }
}

/// A copy of `f` with every field equal.
pub fn copy_file_like(f: &FileLike) -> (r: FileLike)
    ensures
        r == *f,
{
    match f {
        FileLike::NormalFile(k) => FileLike::NormalFile(Arc::new(k.duplicate())),
        FileLike::Socket(s) => FileLike::Socket(Arc::new(crate::file::Socket { id: s.id })),
    }
}

} // verus!
