use over_there::server::action::fs::{
    do_close_file, do_create_dir, do_list_dir_contents, do_open_file, do_read_file,
    do_remove_dir, do_remove_file, do_remove_unopened_file, do_rename_dir, do_rename_file,
    do_rename_unopened_file, do_write_file, finish_create_dir, finish_list_dir_contents,
    finish_open_file, finish_read_file, finish_remove, finish_remove_file, finish_rename,
    finish_rename_file, finish_write_file,
};
use over_there::server::action::proc::{
    do_get_proc_status, do_get_stderr, do_get_stdout, do_kill_proc, do_write_stdin,
    finish_exec_proc, finish_kill_proc, finish_write_stdin,
};
use over_there::server::action::{Content, IoErrorReply, Step};
use over_there::server::action::fs::{
    check_dir_rename_source, check_file_rename_source, finish_rename_dir,
};
use over_there::server::dir::{LocalDirEntry, LocalDirRenameError};
use over_there::server::fs::{FileSystemManager, FsError, OpenPlan};
use over_there::server::proc::LocalProc;
use over_there::server::state::ServerState;
use over_there::server::ttl::TtlEntry;
use std::io;

fn io_err() -> io::Error {
    io::Error::from(io::ErrorKind::Other)
}

/// Opens `path` through the handlers, as if the file system opened it at
/// `path` itself; gives the id and signature
fn open(state: &mut ServerState, path: &str, write: bool, read: bool) -> (u32, u32) {
    let plan = do_open_file(state, path, None, true, write, read, 0);
    let reply = match plan {
        Step::Proceed(OpenPlan::Open { path: full, permissions, reuse, .. }) => {
            finish_open_file(state, path, write, read, permissions, reuse, Ok(full), 0)
        }
        Step::Reply(c) => c,
        Step::Proceed(x) => panic!("Unexpected plan: {:?}", x),
    };
    match reply {
        Content::FileOpened { id, sig, .. } => (id, sig),
        x => panic!("Unexpected reply: {:?}", x),
    }
}

#[test]
fn do_open_file_should_send_error_if_path_not_in_root() {
    let mut state = ServerState::default();
    *state.fs_manager_mut() = FileSystemManager::with_root(String::from("/srv/root"));
    let step = do_open_file(&mut state, "/any/where", None, true, true, true, 0);
    assert!(matches!(
        step,
        Step::Reply(Content::IoError(IoErrorReply::Fs(FsError::PermissionDenied)))
    ));
    match do_open_file(&mut state, "inside", None, true, true, true, 0) {
        Step::Proceed(OpenPlan::Open { path, .. }) => assert_eq!(path, "/srv/root/inside"),
        x => panic!("Unexpected step: {:?}", x),
    }
}

#[test]
fn do_open_file_should_send_success_if_create_flag_set_and_opening_new_file() {
    let mut state = ServerState::default();
    let (id, sig) = open(&mut state, "/tmp/new-file", true, true);
    let f = state.fs_manager().get(id).expect("file not recorded");
    assert_eq!(f.sig(), sig);
    assert_eq!(f.path(), "/tmp/new-file");
    assert_eq!(state.file_id_entry(id), Some(TtlEntry { last_touched: 0, ttl: state.file_ttl() }));
}

#[test]
fn do_open_file_should_reuse_open_file_and_touch_it() {
    let mut state = ServerState::default();
    let (id, sig) = open(&mut state, "/tmp/f", true, true);
    match do_open_file(&mut state, "/tmp/f", None, false, false, true, 42) {
        Step::Reply(Content::FileOpened { id: i, sig: s, path, read, write }) => {
            assert_eq!((i, s), (id, sig));
            assert_eq!(path, "/tmp/f");
            assert!(read);
            assert!(!write);
        }
        x => panic!("Unexpected step: {:?}", x),
    }
    assert_eq!(state.file_id_entry(id).unwrap().last_touched, 42);
}

#[test]
fn finish_open_file_should_send_error_if_opening_failed() {
    let mut state = ServerState::default();
    let perms = over_there::server::fs::LocalFilePermissions { read: true, write: false };
    let reply = finish_open_file(&mut state, "/x", false, true, perms, None, Err(io_err()), 0);
    assert!(matches!(reply, Content::IoError(IoErrorReply::Io(_))));
    assert_eq!(state.fs_manager().file_cnt(), 0);
}

#[test]
fn do_close_file_should_send_error_if_file_not_open() {
    let mut state = ServerState::default();
    let reply = do_close_file(&mut state, 5, 6, 0);
    assert!(matches!(
        reply,
        Content::IoError(IoErrorReply::Fs(FsError::NoOpenFile { id: 5 }))
    ));
}

#[test]
fn do_close_file_should_send_error_if_signature_is_different() {
    let mut state = ServerState::default();
    let (id, sig) = open(&mut state, "/tmp/f", true, true);
    let reply = do_close_file(&mut state, id, sig.wrapping_add(1), 0);
    assert!(matches!(
        reply,
        Content::IoError(IoErrorReply::Fs(FsError::SignatureInvalid { id: i })) if i == id
    ));
    assert!(state.fs_manager().has_file(id));
}

#[test]
fn do_close_file_should_send_confirmation_of_closure_and_stop_tracking() {
    let mut state = ServerState::default();
    let (id, sig) = open(&mut state, "/tmp/f", true, true);
    let reply = do_close_file(&mut state, id, sig, 1);
    assert!(matches!(reply, Content::FileClosed { id: i } if i == id));
    assert!(!state.fs_manager().has_file(id));
    assert_eq!(state.file_id_entry(id), None);
}

#[test]
fn do_read_file_should_send_error_if_file_not_open() {
    let mut state = ServerState::default();
    let step = do_read_file(&mut state, 1, 2, 0);
    assert!(matches!(step, Step::Reply(Content::IoError(IoErrorReply::InvalidFileId(1)))));
}

#[test]
fn do_read_file_should_send_new_signature_if_signature_is_stale() {
    let mut state = ServerState::default();
    let (id, sig) = open(&mut state, "/tmp/f", true, true);
    match do_read_file(&mut state, id, sig.wrapping_add(1), 0) {
        Step::Reply(Content::FileSigChanged { id: i, sig: s }) => {
            assert_eq!(i, id);
            assert_eq!(s, sig);
        }
        x => panic!("Unexpected step: {:?}", x),
    }
}

#[test]
fn do_read_file_should_send_contents_if_read_successful() {
    let mut state = ServerState::default();
    let (id, sig) = open(&mut state, "/tmp/f", true, true);
    match do_read_file(&mut state, id, sig, 3) {
        Step::Proceed(path) => assert_eq!(path, "/tmp/f"),
        x => panic!("Unexpected step: {:?}", x),
    }
    assert_eq!(state.file_id_entry(id).unwrap().last_touched, 3);
    match finish_read_file(id, Ok(b"some contents".to_vec())) {
        Content::FileContents { id: i, contents } => {
            assert_eq!(i, id);
            assert_eq!(contents, b"some contents".to_vec());
        }
        x => panic!("Unexpected reply: {:?}", x),
    }
    assert!(matches!(finish_read_file(id, Err(io_err())), Content::IoError(IoErrorReply::Io(_))));
}

#[test]
fn do_write_file_should_send_new_signature_once_written() {
    let mut state = ServerState::default();
    let (id, sig) = open(&mut state, "/tmp/f", true, true);
    assert!(matches!(do_write_file(&mut state, id, sig, 0), Step::Proceed(_)));
    match finish_write_file(&mut state, id, true, Ok(())) {
        Content::FileWritten { id: i, sig: s } => {
            assert_eq!(i, id);
            assert_eq!(state.fs_manager().get(id).unwrap().sig(), s);
        }
        x => panic!("Unexpected reply: {:?}", x),
    }
}

#[test]
fn do_write_file_should_send_error_if_write_failed_before_truncation() {
    let mut state = ServerState::default();
    let (id, sig) = open(&mut state, "/tmp/f", true, true);
    let reply = finish_write_file(&mut state, id, false, Err(io_err()));
    assert!(matches!(reply, Content::IoError(IoErrorReply::Io(_))));
    assert_eq!(state.fs_manager().get(id).unwrap().sig(), sig);
    let reply = finish_write_file(&mut state, id.wrapping_add(1), true, Ok(()));
    assert!(matches!(reply, Content::IoError(IoErrorReply::InvalidFileId(_))));
}

#[test]
fn do_rename_file_should_send_new_signature_and_path_on_success() {
    let mut state = ServerState::default();
    let (id, sig) = open(&mut state, "/tmp/a", true, true);
    assert!(matches!(do_rename_file(&mut state, id, sig, 0), Step::Proceed(p) if p == "/tmp/a"));
    match finish_rename_file(&mut state, id, String::from("/tmp/b"), Ok(())) {
        Content::FileRenamed { id: i, sig: s } => {
            assert_eq!(i, id);
            let f = state.fs_manager().get(id).unwrap();
            assert_eq!(f.sig(), s);
            assert_eq!(f.path(), "/tmp/b");
        }
        x => panic!("Unexpected reply: {:?}", x),
    }
}

#[test]
fn do_rename_file_should_send_error_if_rename_failed() {
    let mut state = ServerState::default();
    let (id, sig) = open(&mut state, "/tmp/a", true, true);
    let reply = finish_rename_file(&mut state, id, String::from("/tmp/b"), Err(io_err()));
    assert!(matches!(reply, Content::IoError(IoErrorReply::Io(_))));
    let f = state.fs_manager().get(id).unwrap();
    assert_eq!((f.sig(), f.path()), (sig, "/tmp/a"));
}

#[test]
fn do_remove_file_should_stop_tracking_removed_file() {
    let mut state = ServerState::default();
    let (id, sig) = open(&mut state, "/tmp/a", true, true);
    assert!(matches!(do_remove_file(&mut state, id, sig, 0), Step::Proceed(_)));
    assert!(state.file_id_entry(id).is_some());
    match finish_remove_file(&mut state, id, Ok(())) {
        Content::FileRemoved { id: i, sig: s } => {
            assert_eq!(i, id);
            assert_eq!(state.fs_manager().get(id).unwrap().sig(), s);
        }
        x => panic!("Unexpected reply: {:?}", x),
    }
    assert_eq!(state.file_id_entry(id), None);
}

#[test]
fn do_rename_unopened_file_should_send_error_if_file_is_open() {
    let mut state = ServerState::default();
    open(&mut state, "/tmp/a", true, true);
    let step = do_rename_unopened_file(&state, "/tmp/a", None, "/tmp/b");
    assert!(matches!(step, Step::Reply(Content::IoError(IoErrorReply::Fs(FsError::FileOpen { .. })))));
    match do_rename_unopened_file(&state, "/tmp/c", None, "/tmp/d") {
        Step::Proceed((from, to)) => assert_eq!((from.as_str(), to.as_str()), ("/tmp/c", "/tmp/d")),
        x => panic!("Unexpected step: {:?}", x),
    }
    match finish_rename("/tmp/c", "/tmp/d", Ok(()), false) {
        Content::UnopenedFileRenamed { from, to } => assert_eq!((from, to), (String::from("/tmp/c"), String::from("/tmp/d"))),
        x => panic!("Unexpected reply: {:?}", x),
    }
}

#[test]
fn do_remove_unopened_file_should_send_confirmation() {
    let state = ServerState::default();
    assert!(matches!(do_remove_unopened_file(&state, "/tmp/x", None), Step::Proceed(p) if p == "/tmp/x"));
    assert!(matches!(finish_remove("/tmp/x", Ok(()), false), Content::UnopenedFileRemoved { path } if path == "/tmp/x"));
    assert!(matches!(finish_remove("/tmp/x", Err(io_err()), false), Content::IoError(_)));
}

#[test]
fn dir_handlers_should_send_the_paths_given() {
    let state = ServerState::default();
    assert!(matches!(do_create_dir(&state, "/tmp/d"), Step::Proceed(p) if p == "/tmp/d"));
    assert!(matches!(finish_create_dir("/tmp/d", Ok(())), Content::DirCreated { path } if path == "/tmp/d"));
    assert!(matches!(do_rename_dir(&state, "/tmp/d", None, "/tmp/e"), Step::Proceed(_)));
    assert!(matches!(finish_rename("/tmp/d", "/tmp/e", Ok(())  , true), Content::DirRenamed { .. }));
    assert!(matches!(do_remove_dir(&state, "/tmp/e", None), Step::Proceed(_)));
    assert!(matches!(finish_remove("/tmp/e", Ok(()), true), Content::DirRemoved { path } if path == "/tmp/e"));
}

#[test]
fn do_remove_dir_should_send_error_if_open_files_exist_in_directory() {
    let mut state = ServerState::default();
    open(&mut state, "/tmp/dir/f", true, true);
    let step = do_remove_dir(&state, "/tmp/dir", None);
    assert!(matches!(step, Step::Reply(Content::IoError(IoErrorReply::Fs(FsError::FileOpen { path }))) if path == "/tmp/dir/f"));
}

#[test]
fn do_list_dir_contents_should_send_entries() {
    let state = ServerState::default();
    assert!(matches!(do_list_dir_contents(&state, "/tmp"), Step::Proceed(p) if p == "/tmp"));
    let entries = vec![LocalDirEntry {
        path: String::from("/tmp/a"),
        is_file: true,
        is_dir: false,
        is_symlink: false,
    }];
    match finish_list_dir_contents("/tmp", Ok(entries.clone())) {
        Content::DirContentsList { path, entries: e } => {
            assert_eq!(path, "/tmp");
            assert_eq!(e, entries);
            assert_eq!(e[0].path_to_string(), "/tmp/a");
        }
        x => panic!("Unexpected reply: {:?}", x),
    }
}

#[test]
fn do_exec_proc_should_send_success_and_track_process() {
    let mut state = ServerState::default();
    let reply = finish_exec_proc(&mut state, Ok(LocalProc::new(77, true, true, false)), 10);
    assert!(matches!(reply, Content::ProcStarted { id: 77 }));
    assert_eq!(state.get_proc(77).unwrap().id(), 77);
    assert_eq!(state.proc_id_entry(77), Some(TtlEntry { last_touched: 10, ttl: state.proc_ttl() }));
    let reply = finish_exec_proc(&mut state, Err(io_err()), 10);
    assert!(matches!(reply, Content::IoError(IoErrorReply::Io(_))));
}

#[test]
fn do_write_stdin_should_send_error_if_not_piped_or_unknown() {
    let mut state = ServerState::default();
    state.insert_proc(LocalProc::new(1, false, true, true));
    assert!(matches!(do_write_stdin(&mut state, 1, 0), Step::Reply(Content::IoError(IoErrorReply::BrokenPipe))));
    assert!(matches!(do_write_stdin(&mut state, 2, 0), Step::Reply(Content::IoError(IoErrorReply::InvalidProcId(2)))));
    state.insert_proc(LocalProc::new(3, true, false, false));
    assert!(matches!(do_write_stdin(&mut state, 3, 0), Step::Proceed(())));
    assert!(matches!(finish_write_stdin(3, Ok(())), Content::StdinWritten { id: 3 }));
    assert!(matches!(finish_write_stdin(3, Err(io_err())), Content::IoError(_)));
}

#[test]
fn do_get_stdout_should_send_contents_once() {
    let mut state = ServerState::default();
    let mut p = LocalProc::new(5, false, true, true);
    p.record_stdout(b"hello ");
    p.record_stdout(b"world");
    p.record_stderr(b"oops");
    state.insert_proc(p);
    match do_get_stdout(&mut state, 5, 1) {
        Content::StdoutContents { id, output } => {
            assert_eq!(id, 5);
            assert_eq!(output, b"hello world".to_vec());
        }
        x => panic!("Unexpected reply: {:?}", x),
    }
    match do_get_stdout(&mut state, 5, 2) {
        Content::StdoutContents { output, .. } => assert!(output.is_empty()),
        x => panic!("Unexpected reply: {:?}", x),
    }
    match do_get_stderr(&mut state, 5, 3) {
        Content::StderrContents { id, output } => {
            assert_eq!(id, 5);
            assert_eq!(output, b"oops".to_vec());
        }
        x => panic!("Unexpected reply: {:?}", x),
    }
    assert_eq!(state.proc_id_entry(5).unwrap().last_touched, 3);
}

#[test]
fn do_get_stdout_should_send_error_if_not_piped_or_unknown() {
    let mut state = ServerState::default();
    state.insert_proc(LocalProc::new(5, true, false, false));
    assert!(matches!(do_get_stdout(&mut state, 5, 0), Content::IoError(IoErrorReply::BrokenPipe)));
    assert!(matches!(do_get_stderr(&mut state, 5, 0), Content::IoError(IoErrorReply::BrokenPipe)));
    assert!(matches!(do_get_stdout(&mut state, 6, 0), Content::IoError(IoErrorReply::InvalidProcId(6))));
    assert!(matches!(do_get_stderr(&mut state, 6, 0), Content::IoError(IoErrorReply::InvalidProcId(6))));
}

#[test]
fn do_get_proc_status_should_send_status_and_shorten_ttl_once_dead() {
    let mut state = ServerState::default();
    state.insert_proc(LocalProc::new(8, false, false, false));
    assert!(matches!(
        do_get_proc_status(&mut state, 8, 5),
        Content::ProcStatus { id: 8, is_alive: true, exit_code: None }
    ));
    assert_eq!(state.proc_id_entry(8), Some(TtlEntry { last_touched: 5, ttl: state.proc_ttl() }));
    let mut p = state.remove_proc(8).unwrap();
    p.record_exit(true, Some(3));
    state.insert_proc(p);
    assert!(matches!(
        do_get_proc_status(&mut state, 8, 6),
        Content::ProcStatus { id: 8, is_alive: false, exit_code: Some(3) }
    ));
    assert_eq!(
        state.proc_id_entry(8),
        Some(TtlEntry { last_touched: 6, ttl: state.dead_proc_ttl() })
    );
    assert!(matches!(do_get_proc_status(&mut state, 9, 6), Content::IoError(IoErrorReply::InvalidProcId(9))));
}

#[test]
fn do_kill_proc_should_send_exit_code_and_stop_tracking() {
    let mut state = ServerState::default();
    state.insert_proc(LocalProc::new(4, false, false, false));
    match do_kill_proc(&mut state, 4, 0) {
        Step::Proceed(p) => assert_eq!(p.id(), 4),
        x => panic!("Unexpected step: {:?}", x),
    }
    assert!(state.get_proc(4).is_none());
    assert!(state.proc_id_entry(4).is_some());
    assert!(matches!(
        finish_kill_proc(&mut state, 4, Ok(Some(-9))),
        Content::ProcStatus { id: 4, is_alive: false, exit_code: Some(-9) }
    ));
    assert_eq!(state.proc_id_entry(4), None);
    assert!(matches!(do_kill_proc(&mut state, 4, 0), Step::Reply(Content::IoError(IoErrorReply::InvalidProcId(4)))));
}

#[test]
fn local_proc_read_should_return_none_if_not_piped() {
    let mut p = LocalProc::new(1, false, false, false);
    p.record_stdout(b"x");
    assert!(p.read_stdout().is_none());
    assert!(p.read_stderr().is_none());
    assert_eq!(p.exit_status(), None);
    p.record_exit(false, None);
    let s = p.exit_status().unwrap();
    assert_eq!((s.id, s.is_success, s.exit_code), (1, false, None));
}

#[test]
fn file_manipulation_scenario() {
    let mut state = ServerState::default();
    // open/create with read and write access, then write
    let (id, sig) = open(&mut state, "/tmp/work/file", true, true);
    assert!(matches!(do_write_file(&mut state, id, sig, 1), Step::Proceed(p) if p == "/tmp/work/file"));
    let sig = match finish_write_file(&mut state, id, true, Ok(())) {
        Content::FileWritten { sig, .. } => sig,
        x => panic!("Unexpected reply: {:?}", x),
    };
    // an open file cannot be renamed by path
    assert!(matches!(
        do_rename_unopened_file(&state, "/tmp/work/file", None, "/tmp/work/file.2"),
        Step::Reply(Content::IoError(IoErrorReply::Fs(FsError::FileOpen { .. })))
    ));
    // close, then rename it
    assert!(matches!(do_close_file(&mut state, id, sig, 2), Content::FileClosed { .. }));
    assert!(matches!(
        do_rename_unopened_file(&state, "/tmp/work/file", None, "/tmp/work/file.2"),
        Step::Proceed(_)
    ));
    // re-open under the new name and read it
    let (id2, sig2) = open(&mut state, "/tmp/work/file.2", true, true);
    assert!(matches!(do_read_file(&mut state, id2, sig2, 3), Step::Proceed(p) if p == "/tmp/work/file.2"));
    // close it and remove it
    assert!(matches!(do_close_file(&mut state, id2, sig2, 4), Content::FileClosed { .. }));
    assert!(matches!(do_remove_unopened_file(&state, "/tmp/work/file.2", None), Step::Proceed(_)));
    assert_eq!(state.fs_manager().file_cnt(), 0);
}

#[test]
fn remote_process_scenario() {
    let mut state = ServerState::default();
    let reply = finish_exec_proc(&mut state, Ok(LocalProc::new(31, true, true, true)), 0);
    assert!(matches!(reply, Content::ProcStarted { id: 31 }));
    assert!(matches!(do_write_stdin(&mut state, 31, 1), Step::Proceed(())));
    // the process echoes its input
    let mut p = state.remove_proc(31).unwrap();
    p.record_stdout(b"test\n");
    state.replace_proc(31, p);
    assert!(matches!(do_get_stdout(&mut state, 31, 2), Content::StdoutContents { output, .. } if output == b"test\n".to_vec()));
    assert!(matches!(
        do_get_proc_status(&mut state, 31, 3),
        Content::ProcStatus { id: 31, is_alive: true, exit_code: None }
    ));
    assert!(matches!(do_kill_proc(&mut state, 31, 4), Step::Proceed(_)));
    assert!(matches!(
        finish_kill_proc(&mut state, 31, Ok(None)),
        Content::ProcStatus { id: 31, is_alive: false, exit_code: None }
    ));
    // the process is no longer known
    assert!(matches!(
        do_get_proc_status(&mut state, 31, 5),
        Content::IoError(IoErrorReply::InvalidProcId(31))
    ));
}

#[test]
fn finish_handlers_should_pass_on_the_error_given() {
    let mut state = ServerState::default();
    let perms = over_there::server::fs::LocalFilePermissions { read: true, write: true };
    let e = io::Error::from(io::ErrorKind::NotFound);
    match finish_open_file(&mut state, "/x", true, true, perms, None, Err(e), 0) {
        Content::IoError(IoErrorReply::Io(x)) => assert_eq!(x.kind(), io::ErrorKind::NotFound),
        x => panic!("Unexpected reply: {:?}", x),
    }
    let e = io::Error::from(io::ErrorKind::NotFound);
    match finish_exec_proc(&mut state, Err(e), 0) {
        Content::IoError(IoErrorReply::Io(x)) => assert_eq!(x.kind(), io::ErrorKind::NotFound),
        x => panic!("Unexpected reply: {:?}", x),
    }
    assert!(state.get_proc(0).is_none());
}

#[test]
fn rename_sources_should_be_checked_for_their_kind() {
    assert!(check_file_rename_source(Ok(true)).is_ok());
    assert!(matches!(check_file_rename_source(Ok(false)), Err(IoErrorReply::NotAFile)));
    match check_file_rename_source(Err(io::Error::from(io::ErrorKind::NotFound))) {
        Err(IoErrorReply::Io(x)) => assert_eq!(x.kind(), io::ErrorKind::NotFound),
        x => panic!("Unexpected result: {:?}", x),
    }
    assert!(check_dir_rename_source(Ok(true)).is_ok());
    assert!(matches!(check_dir_rename_source(Ok(false)), Err(LocalDirRenameError::NotADirectory)));
    let missing = check_dir_rename_source(Err(io::Error::from(io::ErrorKind::NotFound)));
    match finish_rename_dir("a", "b", missing.map(|_| ())) {
        Content::IoError(IoErrorReply::Io(x)) => assert_eq!(x.kind(), io::ErrorKind::NotFound),
        x => panic!("Unexpected reply: {:?}", x),
    }
    assert!(matches!(
        finish_rename_dir("a", "b", Err(LocalDirRenameError::NotADirectory)),
        Content::IoError(IoErrorReply::NotADirectory)
    ));
    assert!(matches!(finish_rename_dir("a", "b", Ok(())), Content::DirRenamed { from, to } if from == "a" && to == "b"));
}

#[test]
fn finish_open_file_should_not_record_a_second_file_at_one_path() {
    let mut state = ServerState::default();
    let (id, _) = open(&mut state, "/tmp/one", true, true);
    let perms = over_there::server::fs::LocalFilePermissions { read: true, write: true };
    match finish_open_file(&mut state, "/tmp/one", true, true, perms, None, Ok(String::from("/tmp/one")), 1) {
        Content::IoError(IoErrorReply::Fs(FsError::FileOpen { path })) => assert_eq!(path, "/tmp/one"),
        x => panic!("Unexpected reply: {:?}", x),
    }
    assert_eq!(state.fs_manager().file_cnt(), 1);
    assert!(state.fs_manager().has_file(id));
    assert!(state.fs_manager().path_is_free("/tmp/two", None));
    assert!(!state.fs_manager().path_is_free("/tmp/one", None));
    assert!(state.fs_manager().path_is_free("/tmp/one", Some(id)));
}
