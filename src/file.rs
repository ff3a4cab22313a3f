//! Open file objects and the tagged union stored in descriptor tables.

use std::sync::Arc;
use vstd::prelude::*;

verus! {

/// Seconds and nanoseconds, as the kernel stores access and modify times.
#[derive(Clone, Copy, PartialEq, Eq, Structural, Debug)]
pub struct TimeSpec {
    pub tv_sec: u64,
    pub tv_nsec: u64,
}

/// An open regular file: the identity of its VFS file handle (shared by
/// the descriptors that alias it), the identity of the VFS node it opens,
/// the current byte position, the cached timestamps and the pending
/// deferred-unlink path.
#[derive(Debug)]
pub struct KFile {
    pub id: u64,
    pub node: u64,
    pub pos: u64,
    pub atime: TimeSpec,
    pub mtime: TimeSpec,
    pub unlink_path: Option<String>,
}

/// An open socket, known to this layer only by its identity.
#[derive(Debug)]
pub struct Socket {
    pub id: u64,
}

/// What a descriptor refers to: a regular file or a socket.
#[derive(Debug)]
pub enum FileLike {
    NormalFile(Arc<KFile>),
    Socket(Arc<Socket>),
}

/// The variant of a `FileLike`, without its payload.
#[derive(Clone, Copy, PartialEq, Eq, Structural, Debug)]
pub enum FileType {
    NormalFile,
    Socket,
}

impl KFile {
    /// A freshly opened file: position 0, both timestamps set to `now`,
    /// no pending unlink.
    pub fn new(id: u64, node: u64, now: TimeSpec) -> (r: KFile)
        ensures
            r.id == id,
            r.node == node,
            r.pos == 0,
            r.atime == now,
            r.mtime == now,
            r.unlink_path.is_none(),
    {
        KFile { id, node, pos: 0, atime: now, mtime: now, unlink_path: None }
    }

    /// A copy of this file object with every field equal.
    pub fn duplicate(&self) -> (r: KFile)
        ensures
            r == *self,
    {
        let unlink_path = match &self.unlink_path {
            Some(p) => Some(p.clone()),
            None => None,
        };
        KFile {
            id: self.id,
            node: self.node,
            pos: self.pos,
            atime: self.atime,
            mtime: self.mtime,
            unlink_path,
        }
    }

    /// Whether a deferred unlink is pending on this object.
    pub fn is_unlink(&self) -> (r: bool)
        ensures
            r == self.unlink_path.is_some(),
    {
        self.unlink_path.is_some()
    }
}

impl FileLike {
    pub open spec fn spec_type(&self) -> FileType {
        match self {
            FileLike::NormalFile(_) => FileType::NormalFile,
            FileLike::Socket(_) => FileType::Socket,
        }
    }

    /// The variant of this object.
    pub fn get_type(&self) -> (r: FileType)
        ensures
            r == self.spec_type(),
    {
        match self {
            FileLike::NormalFile(_) => FileType::NormalFile,
            FileLike::Socket(_) => FileType::Socket,
        }
    }

    /// The regular file behind this object. Calling it on a socket is a
    /// caller bug, excluded by the precondition; `normal_file` is the
    /// checked form.
    pub fn get_nf(&self) -> (r: Option<Arc<KFile>>)
        requires
            self is NormalFile,
        ensures
            r == Some(self->NormalFile_0),
    {
        match self {
            FileLike::NormalFile(nf) => Some(Arc::new(nf.duplicate())),
            FileLike::Socket(_) => None,
        }
    }

    /// The socket behind this object. Calling it on a regular file is a
    /// caller bug, excluded by the precondition.
    pub fn get_socket(&self) -> (r: Option<Arc<Socket>>)
        requires
            self is Socket,
        ensures
            r == Some(self->Socket_0),
    {
        match self {
            FileLike::NormalFile(_) => None,
            FileLike::Socket(s) => Some(Arc::new(Socket { id: s.id })),
        }
    }

    /// The regular file behind this object, or `None` for a socket.
    pub fn normal_file(&self) -> (r: Option<Arc<KFile>>)
        ensures
            r == (match self {
                FileLike::NormalFile(nf) => Some(*nf),
                FileLike::Socket(_) => None::<Arc<KFile>>,
            }),
    {
        match self {
            FileLike::NormalFile(nf) => Some(Arc::new(nf.duplicate())),
            FileLike::Socket(_) => None,
        }
    }
}

} // verus!
