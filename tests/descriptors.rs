use std::sync::Arc;

use kernel_fs::error::FsError;
use kernel_fs::fd_table::{FdTable, FileUpdate};
use kernel_fs::file::{FileLike, FileType, KFile, Socket, TimeSpec};
use kernel_fs::lifecycle::{close_begin, close_finish, unlink_decide, unlink_finish, ClosePlan, UnlinkAction};

fn now() -> TimeSpec {
    TimeSpec { tv_sec: 5, tv_nsec: 7 }
}

fn file(id: u64) -> FileLike {
    FileLike::NormalFile(Arc::new(KFile::new(id, id + 1000, now())))
}

fn file_on(id: u64, node: u64) -> FileLike {
    FileLike::NormalFile(Arc::new(KFile::new(id, node, now())))
}

fn id_at(t: &FdTable, fd: usize) -> u64 {
    match &*t.get(fd).unwrap() {
        FileLike::NormalFile(k) => k.id,
        FileLike::Socket(s) => s.id,
    }
}

#[test]
fn file_like_accessors() {
    let f = file(3);
    assert_eq!(f.get_type(), FileType::NormalFile);
    let k = f.get_nf().unwrap();
    assert_eq!(k.id, 3);
    assert_eq!(k.node, 1003);
    assert_eq!(k.pos, 0);
    assert_eq!(k.atime, now());
    assert!(!k.is_unlink());
    assert_eq!(f.normal_file().unwrap().id, 3);

    let s = FileLike::Socket(Arc::new(Socket { id: 9 }));
    assert_eq!(s.get_type(), FileType::Socket);
    assert_eq!(s.get_socket().unwrap().id, 9);
    assert!(s.normal_file().is_none());
}

#[test]
fn add_takes_smallest_free_handle() {
    let mut t = FdTable::new(4);
    assert_eq!(t.add(file(10)), Ok(0));
    assert_eq!(t.add(file(11)), Ok(1));
    assert_eq!(t.add(file(12)), Ok(2));
    assert!(t.remove(1).is_ok());
    assert_eq!(t.add(file(13)), Ok(1));
    assert_eq!(id_at(&t, 1), 13);
    assert_eq!(t.add(file(14)), Ok(3));
    assert_eq!(t.add(file(15)), Err(FsError::TableFull));
    assert_eq!(t.max_fds(), 4);
}

#[test]
fn table_with_no_room_is_full() {
    let mut t = FdTable::new(0);
    assert_eq!(t.add(file(1)), Err(FsError::TableFull));
}

#[test]
fn get_and_remove_unknown_handle() {
    let mut t = FdTable::new(8);
    assert!(t.get(0).is_none());
    assert_eq!(t.remove(0).err(), Some(FsError::BadDescriptor));
    t.add(file(1)).unwrap();
    assert!(t.get(5).is_none());
    assert_eq!(t.remove(5).err(), Some(FsError::BadDescriptor));
    assert!(t.remove(0).is_ok());
    assert_eq!(t.remove(0).err(), Some(FsError::BadDescriptor));
}

#[test]
fn descriptor_keeps_identity_until_close() {
    let mut t = FdTable::new(8);
    let h = t.add(file(42)).unwrap();
    let other = t.add(file(43)).unwrap();
    assert_eq!(id_at(&t, h), 42);
    t.remove(other).unwrap();
    assert_eq!(id_at(&t, h), 42);
    t.update_file(&FileUpdate::Position { file: 42, pos: 100 });
    assert_eq!(id_at(&t, h), 42);
    t.add(file(44)).unwrap();
    assert_eq!(id_at(&t, h), 42);
    t.remove(h).unwrap();
    assert!(t.get(h).is_none());
}

#[test]
fn find_normal_file_scans_for_node() {
    let mut t = FdTable::new(8);
    t.add(FileLike::Socket(Arc::new(Socket { id: 7 }))).unwrap();
    t.add(file_on(1, 8)).unwrap();
    t.add(file_on(2, 7)).unwrap();
    t.add(file_on(3, 7)).unwrap();
    assert_eq!(t.find_normal_file(7), Some(2));
    assert_eq!(t.find_normal_file(8), Some(1));
    assert_eq!(t.find_normal_file(99), None);
    assert!(t.has_handle(3));
    assert!(!t.has_handle(7));
}

#[test]
fn updates_reach_every_alias() {
    let mut t = FdTable::new(8);
    t.add(file_on(7, 1)).unwrap();
    t.add(file_on(8, 1)).unwrap();
    t.add(file_on(7, 1)).unwrap();
    t.update_file(&FileUpdate::Position { file: 7, pos: 33 });
    assert_eq!(t.get(0).unwrap().get_nf().unwrap().pos, 33);
    assert_eq!(t.get(2).unwrap().get_nf().unwrap().pos, 33);
    // another open of the same node keeps its own position
    assert_eq!(t.get(1).unwrap().get_nf().unwrap().pos, 0);
}

#[test]
fn unlink_path_is_write_once() {
    let mut t = FdTable::new(8);
    t.add(file_on(7, 70)).unwrap();
    t.update_file(&FileUpdate::Unlink { node: 70, path: "/tmp/a".to_string() });
    t.update_file(&FileUpdate::Unlink { node: 70, path: "/tmp/b".to_string() });
    let k = t.get(0).unwrap().get_nf().unwrap();
    assert!(k.is_unlink());
    assert_eq!(k.unlink_path.as_deref(), Some("/tmp/a"));
}

#[test]
fn unlink_of_closed_file_is_immediate() {
    let mut t = FdTable::new(8);
    t.add(file(1)).unwrap();
    let a = unlink_decide(&mut t, 2, "/x".to_string());
    assert_eq!(a, UnlinkAction::UnlinkNow("/x".to_string()));
    assert!(!t.get(0).unwrap().get_nf().unwrap().is_unlink());
    assert_eq!(unlink_finish(&a, Ok(())), 0);
    assert_eq!(unlink_finish(&a, Err(FsError::LookupError)), -1);
}

#[test]
fn deferred_unlink_runs_once_at_last_close() {
    let mut t = FdTable::new(8);
    let h = t.add(file_on(5, 50)).unwrap();
    let a = unlink_decide(&mut t, 50, "/data/p".to_string());
    assert_eq!(a, UnlinkAction::Deferred);
    assert_eq!(unlink_finish(&a, Err(FsError::LookupError)), 0);
    // the descriptor is still open on the same file
    assert_eq!(id_at(&t, h), 5);
    let plan = close_begin(&mut t, h).unwrap();
    match &plan {
        ClosePlan::File { id, close, unlink } => {
            assert_eq!(*id, 5);
            assert!(*close);
            assert_eq!(unlink.as_deref(), Some("/data/p"));
        }
        ClosePlan::Socket { .. } => panic!("expected a file plan"),
    }
    assert_eq!(close_finish(&plan, Ok(())), 0);
    assert_eq!(close_finish(&plan, Err(FsError::DeviceOrMediaError)), -1);
    assert!(close_begin(&mut t, h).is_err());
    assert_eq!(t.find_normal_file(50), None);
}

#[test]
fn deferred_unlink_waits_for_every_alias() {
    let mut t = FdTable::new(8);
    // two separate opens of node 50
    let a = t.add(file_on(5, 50)).unwrap();
    let b = t.add(file_on(6, 50)).unwrap();
    assert_eq!(unlink_decide(&mut t, 50, "/p".to_string()), UnlinkAction::Deferred);
    let first = close_begin(&mut t, a).unwrap();
    match &first {
        ClosePlan::File { id, close, unlink } => {
            assert_eq!(*id, 5);
            assert!(*close);
            assert!(unlink.is_none());
        }
        ClosePlan::Socket { .. } => panic!("expected a file plan"),
    }
    assert_eq!(close_finish(&first, Err(FsError::LookupError)), 0);
    let last = close_begin(&mut t, b).unwrap();
    match &last {
        ClosePlan::File { id, close, unlink } => {
            assert_eq!(*id, 6);
            assert!(*close);
            assert_eq!(unlink.as_deref(), Some("/p"));
        }
        ClosePlan::Socket { .. } => panic!("expected a file plan"),
    }
}

#[test]
fn close_of_socket_and_bad_handle() {
    let mut t = FdTable::new(8);
    t.add(FileLike::Socket(Arc::new(Socket { id: 4 }))).unwrap();
    let plan = close_begin(&mut t, 0).unwrap();
    assert!(matches!(plan, ClosePlan::Socket { id: 4 }));
    assert_eq!(close_finish(&plan, Err(FsError::LookupError)), 0);
    assert_eq!(close_begin(&mut t, 0).err(), Some(FsError::BadDescriptor));
}

#[test]
fn shared_handle_is_closed_with_its_last_descriptor() {
    let mut t = FdTable::new(8);
    t.add(file_on(9, 90)).unwrap();
    t.add(file_on(9, 90)).unwrap();
    match close_begin(&mut t, 0).unwrap() {
        ClosePlan::File { id, close, unlink } => {
            assert_eq!(id, 9);
            assert!(!close);
            assert!(unlink.is_none());
        }
        ClosePlan::Socket { .. } => panic!("expected a file plan"),
    }
    match close_begin(&mut t, 1).unwrap() {
        ClosePlan::File { close, .. } => assert!(close),
        ClosePlan::Socket { .. } => panic!("expected a file plan"),
    }
}
