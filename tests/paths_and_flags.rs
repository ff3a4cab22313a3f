use std::sync::Arc;

use kernel_fs::error::{syscall_ret, FsError};
use kernel_fs::fd_table::FdTable;
use kernel_fs::file::{FileLike, KFile, Socket, TimeSpec};
use kernel_fs::flags::{
    link_lookup_flags, mkdir_mode, mount_flags, no_flags, open_flags, stat_flags, LookupFlags,
    AT_EMPTY_PATH, AT_SYMLINK_FOLLOW, AT_SYMLINK_NOFOLLOW,
};
use kernel_fs::path::{path_is_absolute, resolve_finish, user_path_at, LookupStart, PathResolution, AT_FDCWD};

fn table() -> FdTable {
    let mut t = FdTable::new(8);
    t.add(FileLike::NormalFile(Arc::new(KFile::new(70, 70, TimeSpec { tv_sec: 0, tv_nsec: 0 }))))
        .unwrap();
    t.add(FileLike::Socket(Arc::new(Socket { id: 71 }))).unwrap();
    t
}

#[test]
fn absolute_path_ignores_descriptor() {
    let t = table();
    for fd in [AT_FDCWD, 0, 1, 5, -3] {
        match user_path_at(&t, fd, "/etc/passwd").unwrap() {
            PathResolution::Absolute(p) => assert_eq!(p, "/etc/passwd"),
            other => panic!("unexpected {:?}", other),
        }
    }
    assert!(path_is_absolute("/"));
    assert!(!path_is_absolute(""));
    assert!(!path_is_absolute("a/b"));
}

#[test]
fn relative_path_from_cwd() {
    let t = table();
    match user_path_at(&t, AT_FDCWD, "a/b").unwrap() {
        PathResolution::Relative { start, path } => {
            assert_eq!(start, LookupStart::Cwd);
            assert_eq!(path, "a/b");
        }
        other => panic!("unexpected {:?}", other),
    }
    match user_path_at(&t, AT_FDCWD, "").unwrap() {
        PathResolution::Relative { start, path } => {
            assert_eq!(start, LookupStart::Cwd);
            assert_eq!(path, "");
        }
        other => panic!("unexpected {:?}", other),
    }
}

#[test]
fn relative_path_from_directory_descriptor() {
    let t = table();
    match user_path_at(&t, 0, "c").unwrap() {
        PathResolution::Relative { start, path } => {
            assert_eq!(start, LookupStart::File(70));
            assert_eq!(path, "c");
        }
        other => panic!("unexpected {:?}", other),
    }
}

#[test]
fn relative_path_with_bad_descriptor() {
    let t = table();
    assert_eq!(user_path_at(&t, 1, "c").err(), Some(FsError::BadDescriptor));
    assert_eq!(user_path_at(&t, 6, "c").err(), Some(FsError::BadDescriptor));
    assert_eq!(user_path_at(&t, -1, "c").err(), Some(FsError::BadDescriptor));
}

#[test]
fn resolution_completes_with_walk() {
    let abs = PathResolution::Absolute("/x".to_string());
    assert_eq!(resolve_finish(abs, Err(FsError::LookupError)), Ok("/x".to_string()));
    let rel = PathResolution::Relative { start: LookupStart::Cwd, path: "y".to_string() };
    assert_eq!(resolve_finish(rel, Ok("/home/y".to_string())), Ok("/home/y".to_string()));
    let rel = PathResolution::Relative { start: LookupStart::File(3), path: "z".to_string() };
    assert_eq!(resolve_finish(rel, Err(FsError::DeviceOrMediaError)), Err(FsError::LookupError));
}

#[test]
fn linkat_rejects_unknown_flags() {
    assert_eq!(link_lookup_flags(0x1), Err(FsError::InvalidFlags));
    assert_eq!(link_lookup_flags(AT_SYMLINK_NOFOLLOW), Err(FsError::InvalidFlags));
    assert_eq!(link_lookup_flags(AT_SYMLINK_FOLLOW | 0x8), Err(FsError::InvalidFlags));
    assert_eq!(link_lookup_flags(1usize << 40), Err(FsError::InvalidFlags));
    assert_eq!(syscall_ret(link_lookup_flags(0x2).map(|_| 0)), -1);
}

#[test]
fn linkat_accepts_follow_and_empty_path() {
    assert_eq!(link_lookup_flags(0), Ok(LookupFlags::none()));
    assert_eq!(
        link_lookup_flags(AT_SYMLINK_FOLLOW),
        Ok(LookupFlags { read_link: true, empty: false })
    );
    assert_eq!(link_lookup_flags(AT_EMPTY_PATH), Ok(LookupFlags { read_link: false, empty: true }));
    assert_eq!(
        link_lookup_flags(AT_SYMLINK_FOLLOW | AT_EMPTY_PATH),
        Ok(LookupFlags { read_link: true, empty: true })
    );
}

#[test]
fn stat_open_and_mount_flag_masks() {
    assert_eq!(stat_flags(0x100 | 0x800 | 0x1000), Ok(0x1900));
    assert_eq!(stat_flags(0x200), Err(FsError::InvalidFlags));
    assert_eq!(open_flags(0x2 | 0x40 | 0x80000), Ok(0x80042));
    assert_eq!(open_flags(0x4), Err(FsError::InvalidFlags));
    assert_eq!(open_flags(0x800000), Err(FsError::InvalidFlags));
    assert_eq!(mount_flags(0x1 | 0x1000 | (1 << 25)), Ok(0x2001001));
    assert_eq!(mount_flags(0x100), Err(FsError::InvalidFlags));
    assert_eq!(mount_flags(1 << 26), Err(FsError::InvalidFlags));
}

#[test]
fn mkdir_mode_from_open_flags() {
    let m = mkdir_mode(0);
    assert!(m.read && !m.write);
    let m = mkdir_mode(0x1);
    assert!(m.read && m.write);
    let m = mkdir_mode(0x2);
    assert!(m.read && !m.write);
    let m = mkdir_mode(0xffff_fff1);
    assert!(m.read && m.write);
}

#[test]
fn zero_flag_arguments() {
    assert_eq!(no_flags(0), Ok(()));
    assert_eq!(no_flags(0x200), Err(FsError::InvalidFlags));
}
