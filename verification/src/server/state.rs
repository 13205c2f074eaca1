use crate::server::fs::{FileSystemManager, LocalFile};
use crate::server::proc::LocalProc;
use std::collections::HashMap;
use crate::server::ttl::{spec_expired, spec_expired_ids, spec_unexpired, TtlEntry, TtlIds};
use vstd::prelude::*;

verus! {

broadcast use vstd::std_specs::hash::group_hash_axioms;

/// Default file ttl (time since last touched) before closing, in
/// milliseconds
pub const DEFAULT_FILE_TTL: u64 = 3_600_000;

/// Default proc ttl (time since last touched) before killing, in
/// milliseconds
pub const DEFAULT_PROC_TTL: u64 = 3_600_000;

/// Default ttl of a process that has ended, once its status was reported,
/// in milliseconds
pub const DEFAULT_DEAD_PROC_TTL: u64 = 60_000;

/// What the server keeps track of between requests: the files it has open,
/// when each open file and each process was last used, and whether it is
/// still running
#[derive(Debug)]
pub struct ServerState {
    /// Files open on the same machine as the server
    fs_manager: FileSystemManager,
    file_ids: TtlIds,
    file_ttl: u64,
    proc_ids: TtlIds,
    proc_ttl: u64,
    dead_proc_ttl: u64,
    /// Processes started on the same machine as the server, by id
    procs: HashMap<u32, LocalProc>,
    /// Indicator of whether or not the server is running, used to signal
    /// to looping handlers that it is time to shut down if false
    running: bool,
}

impl ServerState {
    /// The manager of the files open on the same machine as the server
    pub closed spec fn spec_fs_manager(self) -> FileSystemManager {
        self.fs_manager
    }

    /// The manager of the files open on the same machine as the server
    pub fn fs_manager(&self) -> (m: &FileSystemManager)
        ensures
            *m == self.spec_fs_manager(),
    {
        &self.fs_manager
    }

    /// The manager of the files open on the same machine as the server, to
    /// change; nothing else of the state changes through it
    pub fn fs_manager_mut(&mut self) -> (m: &mut FileSystemManager)
        ensures
            *m == old(self).spec_fs_manager(),
            final(self).spec_fs_manager() == *final(m),
            final(self).spec_file_ids() == old(self).spec_file_ids(),
            final(self).spec_proc_ids() == old(self).spec_proc_ids(),
            final(self).spec_file_ttl() == old(self).spec_file_ttl(),
            final(self).spec_proc_ttl() == old(self).spec_proc_ttl(),
            final(self).spec_running() == old(self).spec_running(),
            final(self).spec_dead_proc_ttl() == old(self).spec_dead_proc_ttl(),
            final(self).spec_procs() == old(self).spec_procs(),
    {
        &mut self.fs_manager
    }

    /// When each open file was last touched, by file id
    pub closed spec fn spec_file_ids(self) -> Map<u32, TtlEntry> {
        self.file_ids.spec_entries()
    }

    /// When each process was last touched, by process id
    pub closed spec fn spec_proc_ids(self) -> Map<u32, TtlEntry> {
        self.proc_ids.spec_entries()
    }

    /// How long a file may stay untouched
    pub closed spec fn spec_file_ttl(self) -> u64 {
        self.file_ttl
    }

    /// How long a process may stay untouched
    pub closed spec fn spec_proc_ttl(self) -> u64 {
        self.proc_ttl
    }

    /// Whether the server is running
    pub closed spec fn spec_running(self) -> bool {
        self.running
    }

    /// How long a process that has ended may stay untouched once its status
    /// was reported
    pub closed spec fn spec_dead_proc_ttl(self) -> u64 {
        self.dead_proc_ttl
    }

    /// The processes started, by id
    pub closed spec fn spec_procs(self) -> Map<u32, LocalProc> {
        self.procs@
    }

    /// Produces new state with the given times to live, in milliseconds
    pub fn new(file_ttl: u64, proc_ttl: u64) -> (s: Self)
        ensures
            s.spec_file_ttl() == file_ttl,
            s.spec_proc_ttl() == proc_ttl,
            s.spec_file_ids() == Map::<u32, TtlEntry>::empty(),
            s.spec_proc_ids() == Map::<u32, TtlEntry>::empty(),
            s.spec_fs_manager().spec_files() == Map::<u32, LocalFile>::empty(),
            s.spec_fs_manager().spec_root() is None,
            s.spec_running(),
            s.spec_dead_proc_ttl() == DEFAULT_DEAD_PROC_TTL,
            s.spec_procs() == Map::<u32, LocalProc>::empty(),
    {
        Self {
            fs_manager: FileSystemManager::new(),
            file_ids: TtlIds::new(),
            file_ttl,
            proc_ids: TtlIds::new(),
            proc_ttl,
            dead_proc_ttl: DEFAULT_DEAD_PROC_TTL,
            procs: HashMap::new(),
            running: true,
        }
    }

    /// How long a file may stay untouched
    pub fn file_ttl(&self) -> (t: u64)
        ensures
            t == self.spec_file_ttl(),
    {
        self.file_ttl
    }

    /// How long a process may stay untouched
    pub fn proc_ttl(&self) -> (t: u64)
        ensures
            t == self.spec_proc_ttl(),
    {
        self.proc_ttl
    }

    /// When the file with `id` was last touched, if it is tracked
    pub fn file_id_entry(&self, id: u32) -> (r: Option<TtlEntry>)
        ensures
            r is None <==> !self.spec_file_ids().contains_key(id),
            r matches Some(e) ==> e == self.spec_file_ids()[id],
    {
        self.file_ids.get(id)
    }

    /// When the process with `id` was last touched, if it is tracked
    pub fn proc_id_entry(&self, id: u32) -> (r: Option<TtlEntry>)
        ensures
            r is None <==> !self.spec_proc_ids().contains_key(id),
            r matches Some(e) ==> e == self.spec_proc_ids()[id],
    {
        self.proc_ids.get(id)
    }

    /// Creates or updates an internal TTL for a file with associated id
    pub fn touch_file_id(&mut self, id: u32, now: u64)
        ensures
            final(self).spec_file_ids() == old(self).spec_file_ids().insert(
                id,
                TtlEntry { last_touched: now, ttl: old(self).spec_file_ttl() },
            ),
            final(self).spec_proc_ids() == old(self).spec_proc_ids(),
            final(self).spec_fs_manager() == old(self).spec_fs_manager(),
            final(self).spec_file_ttl() == old(self).spec_file_ttl(),
            final(self).spec_proc_ttl() == old(self).spec_proc_ttl(),
            final(self).spec_running() == old(self).spec_running(),
            final(self).spec_dead_proc_ttl() == old(self).spec_dead_proc_ttl(),
            final(self).spec_procs() == old(self).spec_procs(),
    {
        self.touch_file_id_with_ttl(id, self.file_ttl, now)
    }

    /// Creates or updates an internal TTL for a file, using `ttl` in place of
    /// the server's file ttl
    pub fn touch_file_id_with_ttl(&mut self, id: u32, ttl: u64, now: u64)
        ensures
            final(self).spec_file_ids() == old(self).spec_file_ids().insert(
                id,
                TtlEntry { last_touched: now, ttl },
            ),
            final(self).spec_proc_ids() == old(self).spec_proc_ids(),
            final(self).spec_fs_manager() == old(self).spec_fs_manager(),
            final(self).spec_file_ttl() == old(self).spec_file_ttl(),
            final(self).spec_proc_ttl() == old(self).spec_proc_ttl(),
            final(self).spec_running() == old(self).spec_running(),
            final(self).spec_dead_proc_ttl() == old(self).spec_dead_proc_ttl(),
            final(self).spec_procs() == old(self).spec_procs(),
    {
        self.file_ids.touch(id, ttl, now);
    }

    /// Removes id associated with an open file, used for internal TTL
    /// tracking; the file itself stays open
    pub fn remove_file_id(&mut self, id: u32)
        ensures
            final(self).spec_file_ids() == old(self).spec_file_ids().remove(id),
            final(self).spec_proc_ids() == old(self).spec_proc_ids(),
            final(self).spec_fs_manager() == old(self).spec_fs_manager(),
            final(self).spec_file_ttl() == old(self).spec_file_ttl(),
            final(self).spec_proc_ttl() == old(self).spec_proc_ttl(),
            final(self).spec_running() == old(self).spec_running(),
            final(self).spec_dead_proc_ttl() == old(self).spec_dead_proc_ttl(),
            final(self).spec_procs() == old(self).spec_procs(),
    {
        self.file_ids.remove(id);
    }

    /// Evicts any files that have not been touched in TTL or longer time,
    /// closing them in the file manager
    pub fn evict_files(&mut self, now: u64)
        ensures
            final(self).spec_file_ids() == spec_unexpired(old(self).spec_file_ids(), now),
            final(self).spec_fs_manager().spec_files() == old(self).spec_fs_manager().spec_files().remove_keys(
                spec_expired_ids(old(self).spec_file_ids(), now),
            ),
            final(self).spec_fs_manager().spec_root() == old(self).spec_fs_manager().spec_root(),
            final(self).spec_proc_ids() == old(self).spec_proc_ids(),
            final(self).spec_file_ttl() == old(self).spec_file_ttl(),
            final(self).spec_proc_ttl() == old(self).spec_proc_ttl(),
            final(self).spec_running() == old(self).spec_running(),
            final(self).spec_dead_proc_ttl() == old(self).spec_dead_proc_ttl(),
            final(self).spec_procs() == old(self).spec_procs(),
    {
        let expired = self.file_ids.evict(now);
        let ghost files = self.fs_manager.spec_files();
        let ghost ex = expired@;
        let mut j: usize = 0;
        while j < expired.len()
            invariant
                j <= ex.len(),
                expired@ == ex,
                self.fs_manager.spec_files() == files.remove_keys(ex.take(j as int).to_set()),
                self.fs_manager.spec_root() == old(self).spec_fs_manager().spec_root(),
                self.file_ids.spec_entries() == spec_unexpired(old(self).spec_file_ids(), now),
                self.proc_ids == old(self).proc_ids,
                self.file_ttl == old(self).file_ttl,
                self.proc_ttl == old(self).proc_ttl,
                self.running == old(self).running,
                self.dead_proc_ttl == old(self).dead_proc_ttl,
                self.procs@ == old(self).procs@,
            decreases ex.len() - j,
        {
            let id = expired[j];
            let handle = match self.fs_manager.get(id) {
                Some(f) => Some(f.handle()),
                None => None,
            };
            let ghost before = self.fs_manager.spec_files();
            match handle {
                Some(h) => {
                    let _ = self.fs_manager.close_file(h);
                },
                None => {
                    assert(before.remove(id) =~= before);
                },
            }
            assert(files.remove_keys(ex.take(j + 1).to_set()) =~= files.remove_keys(
                ex.take(j as int).to_set(),
            ).remove(id)) by {
                assert(ex.take(j + 1) =~= ex.take(j as int).push(id));
                ex.take(j as int).lemma_push_to_set_commute(id);
            }
            j += 1;
        }
        assert(ex.take(ex.len() as int) =~= ex);
    }

    /// Creates or updates an internal TTL for a proc with associated id
    pub fn touch_proc_id(&mut self, id: u32, now: u64)
        ensures
            final(self).spec_proc_ids() == old(self).spec_proc_ids().insert(
                id,
                TtlEntry { last_touched: now, ttl: old(self).spec_proc_ttl() },
            ),
            final(self).spec_file_ids() == old(self).spec_file_ids(),
            final(self).spec_fs_manager() == old(self).spec_fs_manager(),
            final(self).spec_file_ttl() == old(self).spec_file_ttl(),
            final(self).spec_proc_ttl() == old(self).spec_proc_ttl(),
            final(self).spec_running() == old(self).spec_running(),
            final(self).spec_dead_proc_ttl() == old(self).spec_dead_proc_ttl(),
            final(self).spec_procs() == old(self).spec_procs(),
    {
        self.touch_proc_id_with_ttl(id, self.proc_ttl, now)
    }

    /// Creates or updates an internal TTL for a proc, using `ttl` in place of
    /// the server's proc ttl
    pub fn touch_proc_id_with_ttl(&mut self, id: u32, ttl: u64, now: u64)
        ensures
            final(self).spec_proc_ids() == old(self).spec_proc_ids().insert(
                id,
                TtlEntry { last_touched: now, ttl },
            ),
            final(self).spec_file_ids() == old(self).spec_file_ids(),
            final(self).spec_fs_manager() == old(self).spec_fs_manager(),
            final(self).spec_file_ttl() == old(self).spec_file_ttl(),
            final(self).spec_proc_ttl() == old(self).spec_proc_ttl(),
            final(self).spec_running() == old(self).spec_running(),
            final(self).spec_dead_proc_ttl() == old(self).spec_dead_proc_ttl(),
            final(self).spec_procs() == old(self).spec_procs(),
    {
        self.proc_ids.touch(id, ttl, now);
    }

    /// Removes id associated with a proc, used for internal TTL tracking
    pub fn remove_proc_id(&mut self, id: u32)
        ensures
            final(self).spec_proc_ids() == old(self).spec_proc_ids().remove(id),
            final(self).spec_file_ids() == old(self).spec_file_ids(),
            final(self).spec_fs_manager() == old(self).spec_fs_manager(),
            final(self).spec_file_ttl() == old(self).spec_file_ttl(),
            final(self).spec_proc_ttl() == old(self).spec_proc_ttl(),
            final(self).spec_running() == old(self).spec_running(),
            final(self).spec_dead_proc_ttl() == old(self).spec_dead_proc_ttl(),
            final(self).spec_procs() == old(self).spec_procs(),
    {
        self.proc_ids.remove(id);
    }

    /// Stops tracking any proc that has not been touched in TTL or longer
    /// time and removes it, returning the ids of those removed so that they
    /// can be killed
    pub fn evict_procs(&mut self, now: u64) -> (expired: Vec<u32>)
        ensures
            final(self).spec_proc_ids() == spec_unexpired(old(self).spec_proc_ids(), now),
            expired@.to_set() == spec_expired_ids(old(self).spec_proc_ids(), now),
            final(self).spec_procs() == old(self).spec_procs().remove_keys(
                spec_expired_ids(old(self).spec_proc_ids(), now),
            ),
            final(self).spec_file_ids() == old(self).spec_file_ids(),
            final(self).spec_fs_manager() == old(self).spec_fs_manager(),
            final(self).spec_file_ttl() == old(self).spec_file_ttl(),
            final(self).spec_proc_ttl() == old(self).spec_proc_ttl(),
            final(self).spec_running() == old(self).spec_running(),
            final(self).spec_dead_proc_ttl() == old(self).spec_dead_proc_ttl(),
    {
        let expired = self.proc_ids.evict(now);
        let ghost procs = self.procs@;
        let ghost ex = expired@;
        let mut j: usize = 0;
        while j < expired.len()
            invariant
                j <= ex.len(),
                expired@ == ex,
                self.procs@ == procs.remove_keys(ex.take(j as int).to_set()),
                self.proc_ids.spec_entries() == spec_unexpired(old(self).spec_proc_ids(), now),
                self.file_ids == old(self).file_ids,
                self.fs_manager == old(self).fs_manager,
                self.file_ttl == old(self).file_ttl,
                self.proc_ttl == old(self).proc_ttl,
                self.running == old(self).running,
                self.dead_proc_ttl == old(self).dead_proc_ttl,
            decreases ex.len() - j,
        {
            let id = expired[j];
            self.procs.remove(&id);
            assert(procs.remove_keys(ex.take(j + 1).to_set()) =~= procs.remove_keys(
                ex.take(j as int).to_set(),
            ).remove(id)) by {
                assert(ex.take(j + 1) =~= ex.take(j as int).push(id));
                ex.take(j as int).lemma_push_to_set_commute(id);
            }
            j += 1;
        }
        assert(ex.take(ex.len() as int) =~= ex);
        expired
    }

    /// How long a process that has ended may stay untouched once its status
    /// was reported
    pub fn dead_proc_ttl(&self) -> (t: u64)
        ensures
            t == self.spec_dead_proc_ttl(),
    {
        self.dead_proc_ttl
    }

    /// Adds a process that was started, replacing any with the same id
    pub fn insert_proc(&mut self, proc: LocalProc)
        ensures
            final(self).spec_procs() == old(self).spec_procs().insert(proc.spec_id(), proc),
            final(self).spec_file_ids() == old(self).spec_file_ids(),
            final(self).spec_proc_ids() == old(self).spec_proc_ids(),
            final(self).spec_fs_manager() == old(self).spec_fs_manager(),
            final(self).spec_file_ttl() == old(self).spec_file_ttl(),
            final(self).spec_proc_ttl() == old(self).spec_proc_ttl(),
            final(self).spec_running() == old(self).spec_running(),
            final(self).spec_dead_proc_ttl() == old(self).spec_dead_proc_ttl(),
    {
        let id = proc.id();
        self.procs.insert(id, proc);
    }

    /// Puts `proc` back under `id`, replacing any process there
    pub fn replace_proc(&mut self, id: u32, proc: LocalProc)
        ensures
            final(self).spec_procs() == old(self).spec_procs().insert(id, proc),
            final(self).spec_file_ids() == old(self).spec_file_ids(),
            final(self).spec_proc_ids() == old(self).spec_proc_ids(),
            final(self).spec_fs_manager() == old(self).spec_fs_manager(),
            final(self).spec_file_ttl() == old(self).spec_file_ttl(),
            final(self).spec_proc_ttl() == old(self).spec_proc_ttl(),
            final(self).spec_running() == old(self).spec_running(),
            final(self).spec_dead_proc_ttl() == old(self).spec_dead_proc_ttl(),
    {
        self.procs.insert(id, proc);
    }

    /// Takes out the process with `id`, if there is one
    pub fn remove_proc(&mut self, id: u32) -> (r: Option<LocalProc>)
        ensures
            r is None <==> !old(self).spec_procs().contains_key(id),
            r matches Some(p) ==> p == old(self).spec_procs()[id],
            final(self).spec_procs() == old(self).spec_procs().remove(id),
            final(self).spec_file_ids() == old(self).spec_file_ids(),
            final(self).spec_proc_ids() == old(self).spec_proc_ids(),
            final(self).spec_fs_manager() == old(self).spec_fs_manager(),
            final(self).spec_file_ttl() == old(self).spec_file_ttl(),
            final(self).spec_proc_ttl() == old(self).spec_proc_ttl(),
            final(self).spec_running() == old(self).spec_running(),
            final(self).spec_dead_proc_ttl() == old(self).spec_dead_proc_ttl(),
    {
        self.procs.remove(&id)
    }

    /// The process with `id`, if there is one
    pub fn get_proc(&self, id: u32) -> (r: Option<&LocalProc>)
        ensures
            r is None <==> !self.spec_procs().contains_key(id),
            r matches Some(p) ==> *p == self.spec_procs()[id],
    {
        self.procs.get(&id)
    }

    /// Reports the status of the server, used by looping tasks to know
    /// whether to continue running
    pub fn is_running(&self) -> (b: bool)
        ensures
            b == self.spec_running(),
    {
        self.running
    }

    /// Updates the state to reflect that the server is shutting down
    pub fn shutdown(&mut self)
        ensures
            !final(self).spec_running(),
            final(self).spec_dead_proc_ttl() == old(self).spec_dead_proc_ttl(),
            final(self).spec_procs() == old(self).spec_procs(),
            final(self).spec_file_ids() == old(self).spec_file_ids(),
            final(self).spec_proc_ids() == old(self).spec_proc_ids(),
            final(self).spec_fs_manager() == old(self).spec_fs_manager(),
            final(self).spec_file_ttl() == old(self).spec_file_ttl(),
            final(self).spec_proc_ttl() == old(self).spec_proc_ttl(),
    {
        self.running = false;
    }
}

impl Default for ServerState {
    fn default() -> (s: Self)
        ensures
            s.spec_file_ttl() == DEFAULT_FILE_TTL,
            s.spec_proc_ttl() == DEFAULT_PROC_TTL,
            s.spec_file_ids() == Map::<u32, TtlEntry>::empty(),
            s.spec_proc_ids() == Map::<u32, TtlEntry>::empty(),
            s.spec_fs_manager().spec_files() == Map::<u32, LocalFile>::empty(),
            s.spec_fs_manager().spec_root() is None,
            s.spec_running(),
            s.spec_dead_proc_ttl() == DEFAULT_DEAD_PROC_TTL,
            s.spec_procs() == Map::<u32, LocalProc>::empty(),
    {
        Self::new(DEFAULT_FILE_TTL, DEFAULT_PROC_TTL)
    }
}

/// After an eviction at `now`, no id that remains tracked has expired at
/// `now`, and every id that was evicted had.
pub proof fn lemma_eviction_leaves_only_unexpired(m: Map<u32, TtlEntry>, now: u64)
    ensures
        forall|id: u32| #[trigger]
            spec_unexpired(m, now).contains_key(id) ==> !spec_expired(m[id], now),
        forall|id: u32| #[trigger]
            spec_expired_ids(m, now).contains(id) ==> m.contains_key(id) && spec_expired(m[id], now),
        forall|id: u32|
            m.contains_key(id) ==> (#[trigger] spec_unexpired(m, now).contains_key(id)
                || spec_expired_ids(m, now).contains(id)),
{
}

/// An id touched at `touched` with time to live `ttl` survives any eviction
/// before `touched + ttl`, and is evicted by any eviction from then on.
pub proof fn lemma_touched_id_lives_for_its_ttl(
    m: Map<u32, TtlEntry>,
    id: u32,
    touched: u64,
    ttl: u64,
    now: u64,
)
    ensures
        now < touched + ttl ==> spec_unexpired(
            m.insert(id, TtlEntry { last_touched: touched, ttl }),
            now,
        ).contains_key(id),
        now >= touched + ttl ==> spec_expired_ids(
            m.insert(id, TtlEntry { last_touched: touched, ttl }),
            now,
        ).contains(id),
{
}

/// Two states agree on all but the files and when each file was touched
pub open spec fn spec_same_but_files(a: ServerState, b: ServerState) -> bool {
    &&& a.spec_proc_ids() == b.spec_proc_ids()
    &&& a.spec_procs() == b.spec_procs()
    &&& a.spec_file_ttl() == b.spec_file_ttl()
    &&& a.spec_proc_ttl() == b.spec_proc_ttl()
    &&& a.spec_dead_proc_ttl() == b.spec_dead_proc_ttl()
    &&& a.spec_running() == b.spec_running()
    &&& a.spec_fs_manager().spec_root() == b.spec_fs_manager().spec_root()
}

/// Two states agree on all but the processes and when each was touched
pub open spec fn spec_same_but_procs(a: ServerState, b: ServerState) -> bool {
    &&& a.spec_file_ids() == b.spec_file_ids()
    &&& a.spec_fs_manager() == b.spec_fs_manager()
    &&& a.spec_file_ttl() == b.spec_file_ttl()
    &&& a.spec_proc_ttl() == b.spec_proc_ttl()
    &&& a.spec_dead_proc_ttl() == b.spec_dead_proc_ttl()
    &&& a.spec_running() == b.spec_running()
}

/// The times to live of the files after `id` was touched at `now`
pub open spec fn spec_file_touched(s: ServerState, id: u32, now: u64) -> Map<u32, TtlEntry> {
    s.spec_file_ids().insert(id, TtlEntry { last_touched: now, ttl: s.spec_file_ttl() })
}

/// The times to live of the processes after `id` was touched at `now`
pub open spec fn spec_proc_touched(s: ServerState, id: u32, now: u64) -> Map<u32, TtlEntry> {
    s.spec_proc_ids().insert(id, TtlEntry { last_touched: now, ttl: s.spec_proc_ttl() })
}

} // verus!
