use over_there::server::fs::{LocalFilePermissions, OpenPlan};
use over_there::server::proc::LocalProc;
use over_there::server::state::{
    ServerState, DEFAULT_DEAD_PROC_TTL, DEFAULT_FILE_TTL, DEFAULT_PROC_TTL,
};
use over_there::server::ttl::{TtlEntry, TtlIds};

fn open_file(state: &mut ServerState, path: &str) -> u32 {
    match state.fs_manager().plan_open_file(path, None, true, true, true).unwrap() {
        OpenPlan::Open { path, permissions, reuse, .. } => {
            state.fs_manager_mut().finish_open_file(path, permissions, reuse).id
        }
        OpenPlan::Existing(h) => h.id,
    }
}

#[test]
fn ttl_ids_should_track_touched_ids() {
    let mut ids = TtlIds::new();
    assert!(!ids.contains(3));
    ids.touch(3, 100, 10);
    assert_eq!(ids.get(3), Some(TtlEntry { last_touched: 10, ttl: 100 }));
    ids.touch(3, 50, 20);
    assert_eq!(ids.get(3), Some(TtlEntry { last_touched: 20, ttl: 50 }));
    ids.remove(3);
    assert!(!ids.contains(3));
    assert_eq!(ids.get(3), None);
}

#[test]
fn ttl_ids_evict_should_return_exactly_the_expired_ids() {
    let mut ids = TtlIds::new();
    ids.touch(1, 100, 0);
    ids.touch(2, 100, 50);
    ids.touch(3, 10, 95);
    // at 100, id 1 is exactly at its ttl, id 3 is within it, id 2 too
    let mut expired = ids.evict(100);
    expired.sort();
    assert_eq!(expired, vec![1]);
    assert!(!ids.contains(1));
    assert!(ids.contains(2));
    assert!(ids.contains(3));
    let mut expired = ids.evict(150);
    expired.sort();
    assert_eq!(expired, vec![2, 3]);
    assert!(ids.evict(1_000).is_empty());
}

#[test]
fn ttl_ids_evict_should_not_overflow_near_the_end_of_time() {
    let mut ids = TtlIds::new();
    ids.touch(1, u64::MAX, u64::MAX - 1);
    assert!(ids.evict(u64::MAX).is_empty());
    assert!(ids.contains(1));
}

#[test]
fn server_state_default_should_use_default_ttls() {
    let state = ServerState::default();
    assert_eq!(state.file_ttl(), DEFAULT_FILE_TTL);
    assert_eq!(state.proc_ttl(), DEFAULT_PROC_TTL);
    assert_eq!(state.dead_proc_ttl(), DEFAULT_DEAD_PROC_TTL);
    assert_eq!(DEFAULT_FILE_TTL, 60 * 60 * 1000);
    assert_eq!(DEFAULT_PROC_TTL, 60 * 60 * 1000);
    assert!(state.is_running());
    assert_eq!(state.fs_manager().file_cnt(), 0);
}

#[test]
fn touch_file_id_should_produce_a_new_id_with_ttl_if_never_touched() {
    let mut state = ServerState::new(1_000, 2_000);
    state.touch_file_id(7, 5);
    assert_eq!(state.file_id_entry(7), Some(TtlEntry { last_touched: 5, ttl: 1_000 }));
    assert_eq!(state.proc_id_entry(7), None);
}

#[test]
fn touch_file_id_should_update_an_existing_id_with_ttl_if_touched() {
    let mut state = ServerState::new(1_000, 2_000);
    state.touch_file_id(7, 5);
    state.touch_file_id(7, 900);
    assert_eq!(state.file_id_entry(7), Some(TtlEntry { last_touched: 900, ttl: 1_000 }));
    state.touch_file_id_with_ttl(7, 3, 901);
    assert_eq!(state.file_id_entry(7), Some(TtlEntry { last_touched: 901, ttl: 3 }));
}

#[test]
fn remove_file_id_should_remove_id_without_closing_file_if_open() {
    let mut state = ServerState::new(1_000, 2_000);
    let id = open_file(&mut state, "/tmp/f");
    state.touch_file_id(id, 0);
    state.remove_file_id(id);
    assert_eq!(state.file_id_entry(id), None);
    assert!(state.fs_manager().has_file(id));
}

#[test]
fn evict_files_should_close_any_file_that_has_expired() {
    let mut state = ServerState::new(100, 2_000);
    let old_id = open_file(&mut state, "/tmp/old");
    let new_id = open_file(&mut state, "/tmp/new");
    state.touch_file_id(old_id, 0);
    state.touch_file_id(new_id, 50);
    state.evict_files(120);
    assert!(!state.fs_manager().has_file(old_id));
    assert_eq!(state.file_id_entry(old_id), None);
    assert!(state.fs_manager().has_file(new_id));
    assert!(state.file_id_entry(new_id).is_some());
    state.evict_files(150);
    assert!(!state.fs_manager().has_file(new_id));
    assert_eq!(state.fs_manager().file_cnt(), 0);
}

#[test]
fn touch_proc_id_should_produce_a_new_id_with_ttl_if_never_touched() {
    let mut state = ServerState::new(1_000, 2_000);
    state.touch_proc_id(9, 1);
    assert_eq!(state.proc_id_entry(9), Some(TtlEntry { last_touched: 1, ttl: 2_000 }));
    assert_eq!(state.file_id_entry(9), None);
}

#[test]
fn touch_proc_id_should_update_an_existing_id_with_ttl_if_touched() {
    let mut state = ServerState::new(1_000, 2_000);
    state.touch_proc_id(9, 1);
    state.touch_proc_id(9, 3);
    assert_eq!(state.proc_id_entry(9), Some(TtlEntry { last_touched: 3, ttl: 2_000 }));
}

#[test]
fn remove_proc_id_should_remove_id_without_killing_proc_if_running() {
    let mut state = ServerState::new(1_000, 2_000);
    state.insert_proc(LocalProc::new(9, false, false, false));
    state.touch_proc_id(9, 0);
    state.remove_proc_id(9);
    assert_eq!(state.proc_id_entry(9), None);
    assert!(state.get_proc(9).is_some());
}

#[test]
fn evict_procs_should_close_any_proc_that_has_expired() {
    let mut state = ServerState::new(1_000, 100);
    state.insert_proc(LocalProc::new(1, false, false, false));
    state.insert_proc(LocalProc::new(2, false, false, false));
    state.touch_proc_id(1, 0);
    state.touch_proc_id(2, 60);
    let mut expired = state.evict_procs(100);
    expired.sort();
    assert_eq!(expired, vec![1]);
    assert!(state.get_proc(1).is_none());
    assert!(state.get_proc(2).is_some());
    assert_eq!(state.evict_procs(160), vec![2]);
    assert!(state.get_proc(2).is_none());
}

#[test]
fn replace_and_remove_proc_should_work_by_id() {
    let mut state = ServerState::default();
    state.replace_proc(4, LocalProc::new(4, true, false, false));
    assert!(state.get_proc(4).unwrap().supports_stdin());
    let p = state.remove_proc(4).unwrap();
    assert_eq!(p.id(), 4);
    assert!(state.remove_proc(4).is_none());
}

#[test]
fn shutdown_should_stop_running() {
    let mut state = ServerState::default();
    state.shutdown();
    assert!(!state.is_running());
}

#[test]
fn permissions_should_compare_by_fields() {
    let p = LocalFilePermissions { read: true, write: false };
    assert_eq!(p, LocalFilePermissions { read: true, write: false });
    assert_ne!(p, LocalFilePermissions { read: true, write: true });
}
