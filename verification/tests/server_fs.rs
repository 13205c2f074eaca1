use over_there::server::fs::{
    FileSystemManager, FsError, LocalFileError, LocalFileHandle, LocalFilePermissions, OpenPlan,
};
use std::io;

fn perms(read: bool, write: bool) -> LocalFilePermissions {
    LocalFilePermissions { read, write }
}

/// Opens `path` in `m` as a client would: plans, then records the file as
/// opened at `path` itself
fn open(m: &mut FileSystemManager, path: &str, write: bool, read: bool) -> LocalFileHandle {
    match m.plan_open_file(path, None, true, write, read).expect("path refused") {
        OpenPlan::Existing(h) => h,
        OpenPlan::Open { path, permissions, reuse, .. } => {
            m.finish_open_file(path, permissions, reuse)
        }
    }
}

#[test]
fn validate_path_should_place_relative_paths_within_root() {
    let m = FileSystemManager::with_root(String::from("/srv/root"));
    assert_eq!(m.validate_path("a/b.txt"), Ok(String::from("/srv/root/a/b.txt")));
}

#[test]
fn validate_path_should_keep_absolute_paths_within_root() {
    let m = FileSystemManager::with_root(String::from("/srv/root"));
    assert_eq!(m.validate_path("/srv/root/x"), Ok(String::from("/srv/root/x")));
}

#[test]
fn validate_path_should_refuse_absolute_paths_outside_root() {
    let m = FileSystemManager::with_root(String::from("/srv/root"));
    assert_eq!(m.validate_path("/etc/passwd"), Err(FsError::PermissionDenied));
    // a common prefix of characters is not enough: whole components count
    assert_eq!(m.validate_path("/srv/rootless"), Err(FsError::PermissionDenied));
}

#[test]
fn validate_path_should_allow_anything_without_root() {
    let m = FileSystemManager::new();
    assert_eq!(m.validate_path("/etc/passwd"), Ok(String::from("/etc/passwd")));
    assert_eq!(m.validate_path("rel"), Ok(String::from("rel")));
    assert!(m.root().is_none());
}

#[test]
fn manager_default_should_have_no_root_and_no_files() {
    let m = FileSystemManager::default();
    assert!(m.root().is_none());
    assert_eq!(m.file_cnt(), 0);
}

#[test]
fn open_file_should_yield_error_if_path_not_in_root() {
    let m = FileSystemManager::with_root(String::from("/srv/root"));
    assert_eq!(m.plan_open_file("/other/file", None, true, true, true), Err(FsError::PermissionDenied));
}

#[test]
fn open_file_should_return_a_newly_opened_file_if_none_already_open() {
    let mut m = FileSystemManager::with_root(String::from("/srv/root"));
    match m.plan_open_file("f.txt", None, true, true, false) {
        Ok(OpenPlan::Open { path, create, permissions, reuse }) => {
            assert_eq!(path, "/srv/root/f.txt");
            assert!(create);
            assert_eq!(permissions, perms(false, true));
            assert_eq!(reuse, None);
            let h = m.finish_open_file(path, permissions, reuse);
            assert_eq!(m.file_cnt(), 1);
            let f = m.get(h.id).expect("file not recorded");
            assert_eq!(f.handle(), h);
            assert_eq!(f.path(), "/srv/root/f.txt");
            assert_eq!(f.permissions(), perms(false, true));
        }
        x => panic!("Unexpected plan: {:?}", x),
    }
}

#[test]
fn open_file_should_return_existing_open_file_if_permissions_allow() {
    let mut m = FileSystemManager::new();
    let h = open(&mut m, "/tmp/f", true, true);
    assert_eq!(
        m.plan_open_file("/tmp/f", None, false, false, true),
        Ok(OpenPlan::Existing(h))
    );
    assert_eq!(
        m.plan_open_file("/tmp/f", None, false, true, false),
        Ok(OpenPlan::Existing(h))
    );
    assert_eq!(m.file_cnt(), 1);
}

#[test]
fn open_file_should_reopen_an_open_file_if_permissions_need_merging() {
    let mut m = FileSystemManager::new();
    let h = open(&mut m, "/tmp/f", false, true);
    match m.plan_open_file("/tmp/f", None, false, true, false) {
        Ok(OpenPlan::Open { path, create, permissions, reuse }) => {
            assert_eq!(path, "/tmp/f");
            assert!(!create);
            assert_eq!(permissions, perms(true, true));
            assert_eq!(reuse, Some(h));
            let h2 = m.finish_open_file(path, permissions, reuse);
            assert_eq!(h2, h);
            assert_eq!(m.file_cnt(), 1);
            assert_eq!(m.get(h.id).unwrap().permissions(), perms(true, true));
        }
        x => panic!("Unexpected plan: {:?}", x),
    }
}

#[test]
fn close_file_should_yield_error_if_no_file_open_with_id() {
    let mut m = FileSystemManager::new();
    let h = open(&mut m, "/tmp/f", true, true);
    let other = LocalFileHandle { id: h.id.wrapping_add(1), sig: h.sig };
    assert_eq!(m.close_file(other), Err(FsError::NoOpenFile { id: other.id }));
    assert_eq!(m.file_cnt(), 1);
}

#[test]
fn close_file_should_yield_error_if_file_has_different_signature() {
    let mut m = FileSystemManager::new();
    let h = open(&mut m, "/tmp/f", true, true);
    let stale = LocalFileHandle { id: h.id, sig: h.sig.wrapping_add(1) };
    assert_eq!(m.close_file(stale), Err(FsError::SignatureInvalid { id: h.id }));
    assert!(m.has_file(h.id));
}

#[test]
fn close_file_should_remove_file_from_manager_if_successful() {
    let mut m = FileSystemManager::new();
    let h = open(&mut m, "/tmp/f", true, true);
    assert_eq!(m.close_file(h), Ok(()));
    assert!(!m.has_file(h.id));
    assert_eq!(m.file_cnt(), 0);
}

#[test]
fn closing_what_was_opened_leaves_the_other_files() {
    let mut m = FileSystemManager::new();
    let a = open(&mut m, "/tmp/a", true, true);
    let b = open(&mut m, "/tmp/b", false, true);
    assert_eq!(m.file_cnt(), 2);
    assert_eq!(m.close_file(b), Ok(()));
    assert_eq!(m.file_cnt(), 1);
    assert_eq!(m.get(a.id).unwrap().handle(), a);
    assert_eq!(m.get(a.id).unwrap().path(), "/tmp/a");
}

#[test]
fn rename_file_should_yield_error_if_origin_path_not_in_root() {
    let m = FileSystemManager::with_root(String::from("/srv/root"));
    assert_eq!(m.plan_rename("/elsewhere/a", None, "b"), Err(FsError::PermissionDenied));
}

#[test]
fn rename_file_should_yield_error_if_destination_path_not_in_root() {
    let m = FileSystemManager::with_root(String::from("/srv/root"));
    assert_eq!(m.plan_rename("a", None, "/elsewhere/b"), Err(FsError::PermissionDenied));
}

#[test]
fn rename_file_should_yield_error_if_file_is_open() {
    let mut m = FileSystemManager::with_root(String::from("/srv/root"));
    open(&mut m, "a", true, true);
    match m.plan_rename("a", None, "b") {
        Err(FsError::FileOpen { path }) => assert_eq!(path, "/srv/root/a"),
        x => panic!("Unexpected result: {:?}", x),
    }
}

#[test]
fn rename_should_give_full_paths_when_allowed() {
    let m = FileSystemManager::with_root(String::from("/srv/root"));
    assert_eq!(
        m.plan_rename("a", None, "dir/b"),
        Ok((String::from("/srv/root/a"), String::from("/srv/root/dir/b")))
    );
}

#[test]
fn remove_file_should_yield_error_if_path_not_in_root() {
    let m = FileSystemManager::with_root(String::from("/srv/root"));
    assert_eq!(m.plan_remove("/elsewhere", None), Err(FsError::PermissionDenied));
}

#[test]
fn remove_dir_should_yield_error_if_open_files_exist_in_directory() {
    let mut m = FileSystemManager::new();
    open(&mut m, "/tmp/dir/inner/f", true, true);
    match m.plan_remove("/tmp/dir", None) {
        Err(FsError::FileOpen { path }) => assert_eq!(path, "/tmp/dir/inner/f"),
        x => panic!("Unexpected result: {:?}", x),
    }
    // a sibling whose name merely starts with the same letters is free
    assert_eq!(m.plan_remove("/tmp/di", None), Ok(String::from("/tmp/di")));
    assert_eq!(m.check_no_open_files("/tmp/other"), Ok(()));
}

#[test]
fn create_dir_should_yield_error_if_path_not_in_root() {
    let m = FileSystemManager::with_root(String::from("/srv/root"));
    assert_eq!(m.plan_create_dir("/srv"), Err(FsError::PermissionDenied));
    assert_eq!(m.plan_create_dir("new"), Ok(String::from("/srv/root/new")));
}

#[test]
fn dir_entries_should_yield_error_if_path_not_in_root() {
    let m = FileSystemManager::with_root(String::from("/srv/root"));
    assert_eq!(m.plan_dir_entries("/"), Err(FsError::PermissionDenied));
    assert_eq!(m.plan_dir_entries("."), Ok(String::from("/srv/root/.")));
}

#[test]
fn finish_file_rename_should_update_path_on_success() {
    let mut m = FileSystemManager::new();
    let h = open(&mut m, "/tmp/a", true, true);
    match m.finish_file_rename(h.id, String::from("/tmp/b"), Ok(())) {
        Some(Ok(sig)) => {
            let f = m.get(h.id).unwrap();
            assert_eq!(f.sig(), sig);
            assert_eq!(f.path(), "/tmp/b");
        }
        x => panic!("Unexpected result: {:?}", x),
    }
}

#[test]
fn finish_file_rename_should_leave_file_on_failure() {
    let mut m = FileSystemManager::new();
    let h = open(&mut m, "/tmp/a", true, true);
    let err = io::Error::from(io::ErrorKind::NotFound);
    match m.finish_file_rename(h.id, String::from("/tmp/b"), Err(err)) {
        Some(Err(LocalFileError::IoError(e))) => assert_eq!(e.kind(), io::ErrorKind::NotFound),
        x => panic!("Unexpected result: {:?}", x),
    }
    let f = m.get(h.id).unwrap();
    assert_eq!(f.handle(), h);
    assert_eq!(f.path(), "/tmp/a");
    assert!(m.finish_file_rename(h.id.wrapping_add(1), String::from("/x"), Ok(())).is_none());
}

#[test]
fn finish_file_remove_should_keep_file_open() {
    let mut m = FileSystemManager::new();
    let h = open(&mut m, "/tmp/a", true, true);
    assert!(matches!(m.finish_file_remove(h.id, Ok(())), Some(Ok(()))));
    assert!(m.has_file(h.id));
    assert_eq!(m.get(h.id).unwrap().path(), "/tmp/a");
    let err = io::Error::from(io::ErrorKind::PermissionDenied);
    let before = m.get(h.id).unwrap().handle();
    assert!(matches!(
        m.finish_file_remove(h.id, Err(err)),
        Some(Err(LocalFileError::IoError(_)))
    ));
    assert_eq!(m.get(h.id).unwrap().handle(), before);
}

#[test]
fn mark_file_modified_should_report_new_signature() {
    let mut m = FileSystemManager::new();
    let h = open(&mut m, "/tmp/a", true, true);
    let sig = m.mark_file_modified(h.id).expect("file not open");
    assert_eq!(m.get(h.id).unwrap().sig(), sig);
    assert_eq!(m.mark_file_modified(h.id.wrapping_add(1)), None);
}

#[test]
fn check_sig_should_only_accept_current_signature() {
    let mut m = FileSystemManager::new();
    let h = open(&mut m, "/tmp/a", true, true);
    let f = m.get(h.id).unwrap();
    assert!(f.check_sig(h.sig).is_ok());
    assert!(matches!(f.check_sig(h.sig.wrapping_add(1)), Err(LocalFileError::SigMismatch)));
}

#[test]
fn validate_path_should_refuse_paths_that_leave_root_once_resolved() {
    let m = FileSystemManager::with_root(String::from("/srv/root"));
    assert_eq!(m.validate_path("../etc/passwd"), Err(FsError::PermissionDenied));
    assert_eq!(m.validate_path("a/../../etc"), Err(FsError::PermissionDenied));
    assert_eq!(m.validate_path("/srv/root/../etc"), Err(FsError::PermissionDenied));
}

#[test]
fn validate_path_should_accept_parent_segments_that_stay_inside_root() {
    let m = FileSystemManager::with_root(String::from("/srv/root"));
    assert_eq!(m.validate_path("a/../b"), Ok(String::from("/srv/root/a/../b")));
    assert_eq!(m.validate_path("/srv/root/x/../y"), Ok(String::from("/srv/root/x/../y")));
    assert_eq!(m.validate_path("../root/x"), Ok(String::from("/srv/root/../root/x")));
    assert_eq!(m.validate_path("./a/./b"), Ok(String::from("/srv/root/./a/./b")));
    // dots that are part of a name are names
    assert_eq!(m.validate_path("a..b/..c"), Ok(String::from("/srv/root/a..b/..c")));
    // a root given with a trailing separator works the same
    let m = FileSystemManager::with_root(String::from("/srv/root/"));
    assert_eq!(m.validate_path("a/../b"), Ok(String::from("/srv/root/a/../b")));
    assert_eq!(m.validate_path(".."), Err(FsError::PermissionDenied));
}

#[test]
fn validate_path_should_handle_relative_roots() {
    let m = FileSystemManager::with_root(String::from("."));
    assert_eq!(m.validate_path("a"), Ok(String::from("./a")));
    assert_eq!(m.validate_path("../a"), Err(FsError::PermissionDenied));
}

#[test]
fn open_file_should_find_an_open_file_by_its_canonical_path() {
    let mut m = FileSystemManager::new();
    let h = open(&mut m, "/tmp/dir/f", true, true);
    // a request through another spelling of the same file, whose canonical
    // form is the path the file is recorded under
    assert_eq!(
        m.plan_open_file("/tmp/other/../dir/f", Some("/tmp/dir/f"), false, false, true),
        Ok(OpenPlan::Existing(h))
    );
    // without the canonical form, the spelling is looked up as it is
    assert!(matches!(
        m.plan_open_file("/tmp/other/../dir/f", None, false, false, true),
        Ok(OpenPlan::Open { reuse: None, .. })
    ));
}

#[test]
fn remove_should_look_for_open_files_under_the_canonical_path() {
    let mut m = FileSystemManager::new();
    open(&mut m, "/tmp/dir/f", true, true);
    assert!(matches!(
        m.plan_remove("/tmp/link", Some("/tmp/dir")),
        Err(FsError::FileOpen { .. })
    ));
    assert!(matches!(
        m.plan_rename("/tmp/link", Some("/tmp/dir"), "/tmp/x"),
        Err(FsError::FileOpen { .. })
    ));
    assert_eq!(m.plan_remove("/tmp/link", Some("/tmp/elsewhere")), Ok(String::from("/tmp/link")));
}
