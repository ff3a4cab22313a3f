//! The close and unlink-while-open protocols, and what they guarantee.

use vstd::prelude::*;
use crate::error::FsError;
use crate::fd_table::{apply_update, holds_handle, refers_to, FdTable, FileUpdate};
use crate::file::FileLike;

verus! {

/// What the caller of `close_begin` must do next.
#[derive(Debug)]
pub enum ClosePlan {
    /// Close VFS file handle `id` if `close` is set (no other descriptor
    /// holds it); once that has completed, unlink `unlink` if set.
    File { id: u64, close: bool, unlink: Option<String> },
    /// Release socket `id`.
    Socket { id: u64 },
}

/// The identity of an open object: its VFS file handle, or its socket.
pub open spec fn identity(f: FileLike) -> u64 {
    match f {
        FileLike::NormalFile(k) => k.id,
        FileLike::Socket(s) => s.id,
    }
}

/// Whether some handle of `t` is a regular file open on VFS node `node`.
pub open spec fn is_referenced(t: Map<int, FileLike>, node: u64) -> bool {
    exists|h: int| t.contains_key(h) && refers_to(t[h], node)
}

/// Whether some handle of `t` is a regular file on VFS file handle `id`.
pub open spec fn is_held(t: Map<int, FileLike>, id: u64) -> bool {
    exists|h: int| t.contains_key(h) && holds_handle(t[h], id)
}

/// The plan for closing `removed` when `rest` is what stays open: the VFS
/// handle is closed when no other descriptor holds it, and the pending
/// unlink is carried out only when no other descriptor is open on the same
/// VFS node, that is at the last close.
pub open spec fn spec_close_plan(removed: FileLike, rest: Map<int, FileLike>) -> ClosePlan {
    match removed {
        FileLike::NormalFile(k) => ClosePlan::File {
            id: k.id,
            close: !is_held(rest, k.id),
            unlink: if is_referenced(rest, k.node) {
                None
            } else {
                k.unlink_path
            },
        },
        FileLike::Socket(s) => ClosePlan::Socket { id: s.id },
    }
}

/// Detaches `fd` and says what the caller must do with the object: close
/// the VFS file, then unlink a pending path if this was its last descriptor.
pub fn close_begin(table: &mut FdTable, fd: usize) -> (r: Result<ClosePlan, FsError>)
    requires
        old(table).wf(),
    ensures
        final(table).wf(),
        final(table).capacity() == old(table).capacity(),
        old(table)@.contains_key(fd as int) <==> r is Ok,
        r matches Ok(p) ==> {
            &&& final(table)@ == old(table)@.remove(fd as int)
            &&& p == spec_close_plan(old(table)@[fd as int], final(table)@)
        },
        r matches Err(e) ==> e == FsError::BadDescriptor && final(table)@ == old(table)@,
{
    let f = match table.remove(fd) {
        Ok(f) => f,
        Err(e) => return Err(e),
    };
    match &*f {
        FileLike::NormalFile(k) => {
            let close = !table.has_handle(k.id);
            let still_open = table.find_normal_file(k.node);
            let unlink = if still_open.is_some() {
                None
            } else {
                match &k.unlink_path {
                    Some(p) => Some(p.clone()),
                    None => None,
                }
            };
            Ok(ClosePlan::File { id: k.id, close, unlink })
        },
        FileLike::Socket(s) => Ok(ClosePlan::Socket { id: s.id }),
    }
}

/// The syscall result of a close that followed `plan`: failure only when
/// the deferred unlink it asked for failed. `unlink_result` is ignored when
/// the plan asked for no unlink.
pub fn close_finish(plan: &ClosePlan, unlink_result: Result<(), FsError>) -> (r: isize)
    ensures
        r == (match plan {
            ClosePlan::File { unlink: Some(_), .. } => if unlink_result is Ok { 0 } else { -1 },
            _ => 0,
        }),
{
    match plan {
        ClosePlan::File { unlink: Some(_), .. } => match unlink_result {
            Ok(()) => 0,
            Err(_) => -1,
        },
        _ => 0,
    }
}

/// What `unlinkat` does once the target has been identified.
#[derive(PartialEq, Eq, Debug)]
pub enum UnlinkAction {
    /// The file is open: the unlink was recorded on its descriptors and will
    /// be carried out at last close. The syscall succeeds.
    Deferred,
    /// The file is not open: unlink this path now.
    UnlinkNow(String),
}

/// Decides an unlink of `path`, whose VFS node is `target`: when some
/// descriptor is open on that node, the path is recorded on every such
/// descriptor (write-once) and the unlink is deferred; otherwise it is due
/// now and the table is unchanged.
pub fn unlink_decide(table: &mut FdTable, target: u64, path: String) -> (r: UnlinkAction)
    requires
        old(table).wf(),
    ensures
        final(table).wf(),
        final(table).capacity() == old(table).capacity(),
        is_referenced(old(table)@, target) ==> {
            &&& r == UnlinkAction::Deferred
            &&& final(table)@ == old(table)@.map_values(
                |f: FileLike| apply_update(f, FileUpdate::Unlink { node: target, path }),
            )
        },
        !is_referenced(old(table)@, target) ==> {
            &&& r == UnlinkAction::UnlinkNow(path)
            &&& final(table)@ == old(table)@
        },
{
    match table.find_normal_file(target) {
        Some(_) => {
            let u = FileUpdate::Unlink { node: target, path };
            table.update_file(&u);
            UnlinkAction::Deferred
        },
        None => UnlinkAction::UnlinkNow(path),
    }
}

/// The syscall result of an unlink: success when it was deferred, otherwise
/// the result of the immediate VFS unlink (`unlink_result`).
pub fn unlink_finish(action: &UnlinkAction, unlink_result: Result<(), FsError>) -> (r: isize)
    ensures
        r == (match action {
            UnlinkAction::Deferred => 0,
            UnlinkAction::UnlinkNow(_) => if unlink_result is Ok { 0isize } else { -1isize },
        }),
{
    match action {
        UnlinkAction::Deferred => 0,
        UnlinkAction::UnlinkNow(_) => match unlink_result {
            Ok(()) => 0,
            Err(_) => -1,
        },
    }
}

/// Unlinking a file that is open through exactly one descriptor `h`
/// succeeds at once, leaves `h` open on the same VFS file, and closing `h`
/// then closes the file handle and asks for the unlink of that path;
/// afterwards no descriptor is open on the node, so no later close asks for
/// it again.
pub proof fn lemma_deferred_unlink(t: Map<int, FileLike>, h: int, path: String)
    requires
        t.contains_key(h),
        t[h] is NormalFile,
        t[h]->NormalFile_0.unlink_path is None,
        forall|k: int| t.contains_key(k) && k != h ==> !refers_to(t[k], t[h]->NormalFile_0.node)
            && !holds_handle(t[k], t[h]->NormalFile_0.id),
    ensures
        ({
            let node = t[h]->NormalFile_0.node;
            let id = t[h]->NormalFile_0.id;
            let t1 = t.map_values(|f: FileLike| apply_update(f, FileUpdate::Unlink { node, path }));
            &&& is_referenced(t, node)
            &&& t1.contains_key(h)
            &&& holds_handle(t1[h], id)
            &&& refers_to(t1[h], node)
            &&& spec_close_plan(t1[h], t1.remove(h)) == (ClosePlan::File {
                id,
                close: true,
                unlink: Some(path),
            })
            &&& !is_referenced(t1.remove(h), node)
        }),
{
    let node = t[h]->NormalFile_0.node;
    let id = t[h]->NormalFile_0.id;
    let t1 = t.map_values(|f: FileLike| apply_update(f, FileUpdate::Unlink { node, path }));
    assert(refers_to(t[h], node));
    let rest = t1.remove(h);
    assert forall|k: int| rest.contains_key(k) implies !refers_to(rest[k], node) && !holds_handle(rest[k], id) by {
        assert(t.contains_key(k) && k != h);
    }
}

/// A descriptor keeps referring to an object of the same kind and the same
/// VFS identity through every table change other than its own removal:
/// adding another descriptor, removing another one, and an update shared by
/// the aliases of some file.
pub proof fn lemma_descriptor_identity_stable(
    t: Map<int, FileLike>,
    h: int,
    other: int,
    obj: FileLike,
    u: FileUpdate,
)
    requires
        t.contains_key(h),
        other != h,
    ensures
        t.insert(other, obj).contains_key(h),
        t.insert(other, obj)[h] == t[h],
        t.remove(other).contains_key(h),
        t.remove(other)[h] == t[h],
        ({
            let t1 = t.map_values(|f: FileLike| apply_update(f, u));
            &&& t1.contains_key(h)
            &&& identity(t1[h]) == identity(t[h])
            &&& t1[h].spec_type() == t[h].spec_type()
        }),
{
}

/// With any number of descriptors open on a VFS node, a close asks for the
/// deferred unlink exactly when it removes the last of them while a path is
/// pending; once it has, no descriptor on the node is left for a later close
/// to ask again.
pub proof fn lemma_unlink_at_last_close(t: Map<int, FileLike>, h: int)
    requires
        t.contains_key(h),
        t[h] is NormalFile,
    ensures
        ({
            let k = t[h]->NormalFile_0;
            let plan = spec_close_plan(t[h], t.remove(h));
            &&& (plan matches ClosePlan::File { unlink: Some(_), .. }) <==> (!is_referenced(
                t.remove(h),
                k.node,
            ) && k.unlink_path is Some)
            &&& plan matches ClosePlan::File { unlink: Some(p), .. } ==> Some(p) == k.unlink_path
        }),
{
}

} // verus!
