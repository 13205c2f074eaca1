use crate::server::path::{
    is_absolute, join, leading_parent, lemma_plain_join, lemma_plain_path_is_normal, normalize,
    same_path, spec_is_absolute, spec_join, spec_leading_parent, spec_normalize, spec_plain_path,
    spec_same_path, spec_starts_with, starts_with,
};
use rand::RngCore;
use std::collections::HashMap;
use vstd::std_specs::hash::spec_hash_map_iter;
use vstd::std_specs::iter::IteratorSpec;
use vstd::prelude::*;

verus! {

broadcast use {vstd::std_specs::hash::group_hash_axioms, vstd::std_specs::hash::axiom_spec_hash_map_iter};

/// Draws a random number from the operating system's source through
/// `rand::rngs::OsRng::next_u32`; nothing is claimed of the number.
#[verifier::external_body]
pub fn random_u32() -> u32 {
    rand::rngs::OsRng.next_u32()
}

/// A new signature to replace `current`: a random draw, moved on by one
/// (wrapping round) in the rare case that it equals `current`, so that a
/// client still holding the signature it had always sees the change
fn fresh_sig(current: u32) -> (s: u32)
    ensures
        s != current,
{
    let s = random_u32();
    if s != current {
        s
    } else if current == u32::MAX {
        0
    } else {
        current + 1
    }
}

/// The id and signature by which a client refers to an open file
#[derive(Copy, Clone, Debug, PartialEq, Eq, Structural)]
pub struct LocalFileHandle {
    pub id: u32,
    pub sig: u32,
}

/// What an open file may be used for
#[derive(Copy, Clone, Debug, PartialEq, Eq, Structural)]
pub struct LocalFilePermissions {
    pub write: bool,
    pub read: bool,
}

/// What the server knows of a file it has open: the id to look it up by, the
/// signature that changes with each modification, the permissions it was
/// opened with, and its absolute path
#[derive(Clone, Debug)]
pub struct LocalFile {
    id: u32,
    sig: u32,
    permissions: LocalFilePermissions,
    path: String,
}

/// Failures of an operation on an open file
#[derive(Debug)]
pub enum LocalFileError {
    /// The signature given is not the file's current one
    SigMismatch,
    /// The file system reported an error
    IoError(std::io::Error),
}

/// Errors of the standard library's I/O
#[verifier::external_type_specification]
#[verifier::external_body]
pub struct ExIoError(std::io::Error);

impl LocalFile {
    /// The id of the file
    pub closed spec fn spec_id(self) -> u32 {
        self.id
    }

    /// The current signature of the file
    pub closed spec fn spec_sig(self) -> u32 {
        self.sig
    }

    /// The permissions the file was opened with
    pub closed spec fn spec_permissions(self) -> LocalFilePermissions {
        self.permissions
    }

    /// The path of the file
    pub closed spec fn spec_path(self) -> Seq<char> {
        self.path@
    }

    /// A file record with the given id, signature, permissions and path
    pub fn with_id_and_sig(id: u32, sig: u32, permissions: LocalFilePermissions, path: String) -> (f:
        Self)
        ensures
            f.spec_id() == id,
            f.spec_sig() == sig,
            f.spec_permissions() == permissions,
            f.spec_path() == path@,
    {
        LocalFile { id, sig, permissions, path }
    }

    /// A record of a newly opened file, with a random id and signature
    pub fn new(permissions: LocalFilePermissions, path: String) -> (f: Self)
        ensures
            f.spec_permissions() == permissions,
            f.spec_path() == path@,
    {
        let id = random_u32();
        let sig = random_u32();
        LocalFile { id, sig, permissions, path }
    }

    pub fn id(&self) -> (id: u32)
        ensures
            id == self.spec_id(),
    {
        self.id
    }

    pub fn sig(&self) -> (sig: u32)
        ensures
            sig == self.spec_sig(),
    {
        self.sig
    }

    pub fn handle(&self) -> (h: LocalFileHandle)
        ensures
            h == (LocalFileHandle { id: self.spec_id(), sig: self.spec_sig() }),
    {
        LocalFileHandle { id: self.id, sig: self.sig }
    }

    pub fn permissions(&self) -> (p: LocalFilePermissions)
        ensures
            p == self.spec_permissions(),
    {
        self.permissions
    }

    pub fn path(&self) -> (p: &str)
        ensures
            p@ == self.spec_path(),
    {
        self.path.as_str()
    }

    /// Checks that `sig` is the file's current signature; every operation
    /// on the file starts with this check
    pub fn check_sig(&self, sig: u32) -> (r: Result<(), LocalFileError>)
        ensures
            r is Ok <==> sig == self.spec_sig(),
            r is Err ==> r matches Err(LocalFileError::SigMismatch),
    {
        if self.sig != sig {
            return Err(LocalFileError::SigMismatch);
        }
        Ok(())
    }

    /// Records the outcome of renaming the file at its path to `to`, which
    /// was attempted after `check_sig` accepted the signature. On success
    /// the file takes the new path and a new signature, which is returned;
    /// on failure nothing changes.
    pub fn finish_rename(&mut self, to: String, outcome: Result<(), std::io::Error>) -> (r: Result<
        u32,
        LocalFileError,
    >)
        ensures
            final(self).spec_id() == old(self).spec_id(),
            final(self).spec_permissions() == old(self).spec_permissions(),
            outcome is Ok ==> {
                &&& r == Ok::<u32, LocalFileError>(final(self).spec_sig())
                &&& final(self).spec_sig() != old(self).spec_sig()
                &&& final(self).spec_path() == to@
            },
            outcome matches Err(e) ==> {
                &&& r matches Err(LocalFileError::IoError(x)) && x == e
                &&& *final(self) == *old(self)
            },
    {
        match outcome {
            Ok(()) => {
                self.sig = fresh_sig(self.sig);
                self.path = to;
                Ok(self.sig)
            },
            Err(e) => Err(LocalFileError::IoError(e)),
        }
    }

    /// Records the outcome of removing the file, which was attempted after
    /// `check_sig` accepted the signature. On success the file takes a new
    /// signature; on failure nothing changes.
    pub fn finish_remove(&mut self, outcome: Result<(), std::io::Error>) -> (r: Result<
        (),
        LocalFileError,
    >)
        ensures
            final(self).spec_id() == old(self).spec_id(),
            final(self).spec_permissions() == old(self).spec_permissions(),
            final(self).spec_path() == old(self).spec_path(),
            outcome is Ok ==> r is Ok && final(self).spec_sig() != old(self).spec_sig(),
            outcome matches Err(e) ==> {
                &&& r matches Err(LocalFileError::IoError(x)) && x == e
                &&& *final(self) == *old(self)
            },
    {
        match outcome {
            Ok(()) => {
                self.sig = fresh_sig(self.sig);
                Ok(())
            },
            Err(e) => Err(LocalFileError::IoError(e)),
        }
    }

    /// Records that the file's contents were touched by a write (once it
    /// has been truncated): the file takes a new signature, so that even a
    /// partial write shows as a change
    pub fn mark_modified(&mut self) -> (sig: u32)
        ensures
            final(self).spec_id() == old(self).spec_id(),
            final(self).spec_permissions() == old(self).spec_permissions(),
            final(self).spec_path() == old(self).spec_path(),
            sig == final(self).spec_sig(),
            sig != old(self).spec_sig(),
    {
        self.sig = fresh_sig(self.sig);
        self.sig
    }
}

/// The rules that keep the file system manager in bounds were broken
#[derive(Debug, Clone, PartialEq, Eq)]
pub enum FsError {
    /// The path lies outside of the manager's root
    PermissionDenied,
    /// No file is open with this id
    NoOpenFile { id: u32 },
    /// The file with this id has another signature
    SignatureInvalid { id: u32 },
    /// An open file lies at or below the path given
    FileOpen { path: String },
}

/// How a request to open a file is to be carried out
#[derive(Debug, Clone, PartialEq, Eq)]
pub enum OpenPlan {
    /// The file is open already with the permissions asked for
    Existing(LocalFileHandle),
    /// The file is to be opened at `path` with `permissions`, creating it if
    /// `create`; when `reuse` holds a handle, the file is open already with
    /// fewer permissions, and the new opening takes over its id and
    /// signature
    Open {
        path: String,
        create: bool,
        permissions: LocalFilePermissions,
        reuse: Option<LocalFileHandle>,
    },
}

/// Keeps track of the files that the server has open, and confines file
/// system operations to a root directory when it has one
#[derive(Debug)]
pub struct FileSystemManager {
    root: Option<String>,
    files: HashMap<u32, LocalFile>,
}

/// Each file is kept under its own id
pub open spec fn keyed_by_id(files: Map<u32, LocalFile>) -> bool {
    forall|id: u32| #[trigger] files.contains_key(id) ==> files[id].spec_id() == id
}

/// Whether `path` may be used by a manager with the given root: with a
/// root, a relative path is placed within the root and an absolute one
/// must start with it, and in either case the path the manager would use,
/// its `.` and `..` resolved, must lie within the root
pub open spec fn spec_path_allowed(root: Option<Seq<char>>, path: Seq<char>) -> bool {
    match root {
        Some(r) => (!spec_is_absolute(path) || spec_starts_with(path, r)) && spec_within_root(
            root,
            spec_full_path(root, path),
        ),
        None => true,
    }
}

/// The path that a manager with the given root uses for `path`
pub open spec fn spec_full_path(root: Option<Seq<char>>, path: Seq<char>) -> Seq<char> {
    match root {
        Some(r) => spec_join(r, path),
        None => path,
    }
}

/// Whether `p` lies within the root, when there is one: with `.` and `..`
/// resolved in both, `p` starts with the root in whole components, and does
/// not climb above it (a relative `p` that starts with `..` lies within a
/// relative root only if that starts with `..` too)
pub open spec fn spec_within_root(root: Option<Seq<char>>, p: Seq<char>) -> bool {
    match root {
        Some(r) => spec_starts_with(spec_normalize(p), spec_normalize(r)) && (spec_leading_parent(
            spec_normalize(r),
        ) || !spec_leading_parent(spec_normalize(p))),
        None => true,
    }
}

/// No two open files lie at one path
pub open spec fn spec_paths_unique(files: Map<u32, LocalFile>) -> bool {
    forall|i: u32, j: u32|
        #![trigger files[i], files[j]]
        files.contains_key(i) && files.contains_key(j) && i != j ==> !spec_same_path(
            files[i].spec_path(),
            files[j].spec_path(),
        )
}

/// No open file other than the one with id `except` lies at `p`, comparing
/// the paths either way
pub open spec fn spec_path_free(files: Map<u32, LocalFile>, p: Seq<char>, except: Option<u32>) -> bool {
    forall|id: u32|
        #[trigger] files.contains_key(id) && except != Some(id) ==> !spec_same_path(
            files[id].spec_path(),
            p,
        ) && !spec_same_path(p, files[id].spec_path())
}

/// The id of a handle to reuse, if any
pub open spec fn spec_reuse_id(reuse: Option<LocalFileHandle>) -> Option<u32> {
    match reuse {
        Some(h) => Some(h.id),
        None => None,
    }
}

/// Whether some open file lies at or below `path`
pub open spec fn spec_has_open_file_under(files: Map<u32, LocalFile>, path: Seq<char>) -> bool {
    exists|id: u32| files.contains_key(id) && spec_starts_with(files[id].spec_path(), path)
}

/// Whether the permissions `have` cover what is asked for
pub open spec fn spec_covers(have: LocalFilePermissions, read: bool, write: bool) -> bool {
    (have.read || !read) && (have.write || !write)
}

/// The path by which open files are looked up for a request on the full
/// path `full`: its canonical form when it has one (when the file exists),
/// `full` itself otherwise
pub open spec fn spec_lookup_path(full: Seq<char>, canonical: Option<Seq<char>>) -> Seq<char> {
    match canonical {
        Some(c) => c,
        None => full,
    }
}

/// The text of an optional path, taken by view
pub open spec fn spec_opt_view(p: Option<&str>) -> Option<Seq<char>> {
    match p {
        Some(s) => Some(s@),
        None => None,
    }
}

/// Whether `plan` is how a manager with these files and this root carries
/// out a request to open `path`, whose full path has the canonical form
/// `canonical` when the file exists
pub open spec fn spec_open_plan(
    files: Map<u32, LocalFile>,
    root: Option<Seq<char>>,
    path: Seq<char>,
    canonical: Option<Seq<char>>,
    create: bool,
    write: bool,
    read: bool,
    plan: OpenPlan,
) -> bool {
    let lookup = spec_lookup_path(spec_full_path(root, path), canonical);
    match plan {
        OpenPlan::Existing(h) => {
            &&& files.contains_key(h.id)
            &&& files[h.id].handle_spec() == h
            &&& spec_same_path(files[h.id].spec_path(), lookup)
            &&& spec_covers(files[h.id].spec_permissions(), read, write)
        },
        OpenPlan::Open { path: p, create: c, permissions, reuse } => {
            &&& p@ == spec_full_path(root, path)
            &&& c == create
            &&& match reuse {
                Some(h) => {
                    &&& files.contains_key(h.id)
                    &&& files[h.id].handle_spec() == h
                    &&& spec_same_path(files[h.id].spec_path(), lookup)
                    &&& !spec_covers(files[h.id].spec_permissions(), read, write)
                    &&& permissions.read == (files[h.id].spec_permissions().read || read)
                    &&& permissions.write == (files[h.id].spec_permissions().write || write)
                },
                None => {
                    &&& permissions == LocalFilePermissions { read, write }
                    &&& forall|id: u32| #[trigger]
                        files.contains_key(id) ==> !spec_same_path(files[id].spec_path(), lookup)
                },
            }
        },
    }
}

/// An open file is handed out as it is only when it was opened with every
/// access asked for. Otherwise the file is opened (again), with at least
/// the access asked for; when an open file is reopened, something it lacked
/// was asked for, and it keeps what it had: read and write are each what
/// it had or what was asked for
pub proof fn lemma_open_plan_grants_asked_access(
    files: Map<u32, LocalFile>,
    root: Option<Seq<char>>,
    path: Seq<char>,
    canonical: Option<Seq<char>>,
    create: bool,
    write: bool,
    read: bool,
    plan: OpenPlan,
)
    requires
        spec_open_plan(files, root, path, canonical, create, write, read, plan),
    ensures
        plan matches OpenPlan::Existing(h) ==> {
            &&& read ==> files[h.id].spec_permissions().read
            &&& write ==> files[h.id].spec_permissions().write
        },
        plan matches OpenPlan::Open { permissions, reuse, .. } ==> {
            &&& read ==> permissions.read
            &&& write ==> permissions.write
            &&& reuse matches Some(h) ==> {
                let had = files[h.id].spec_permissions();
                &&& (read && !had.read) || (write && !had.write)
                &&& permissions.read == (had.read || read)
                &&& permissions.write == (had.write || write)
            }
        },
{
}

impl Default for FileSystemManager {
    fn default() -> (m: Self)
        ensures
            m.spec_root() is None,
            m.spec_files() == Map::<u32, LocalFile>::empty(),
    {
        Self::new()
    }
}

impl FileSystemManager {
    #[verifier::type_invariant]
    spec fn wf(self) -> bool {
        keyed_by_id(self.files@)
    }

    /// The root that operations are confined to, if any
    pub closed spec fn spec_root(self) -> Option<Seq<char>> {
        match self.root {
            Some(r) => Some(r@),
            None => None,
        }
    }

    /// The open files, by id
    pub closed spec fn spec_files(self) -> Map<u32, LocalFile> {
        self.files@
    }

    /// Creates new instance where operations are allowed anywhere
    pub fn new() -> (m: Self)
        ensures
            m.spec_root() is None,
            m.spec_files() == Map::<u32, LocalFile>::empty(),
    {
        let m = Self { root: None, files: HashMap::new() };
        assert(m.spec_files() =~= Map::<u32, LocalFile>::empty());
        m
    }

    /// Creates new instance where operations are only allowed within `root`
    pub fn with_root(root: String) -> (m: Self)
        ensures
            m.spec_root() == Some(root@),
            m.spec_files() == Map::<u32, LocalFile>::empty(),
    {
        let m = Self { root: Some(root), files: HashMap::new() };
        assert(m.spec_files() =~= Map::<u32, LocalFile>::empty());
        m
    }

    /// Represents the root that the file system abides by when managing
    /// resources
    pub fn root(&self) -> (r: Option<&String>)
        ensures
            r is None <==> self.spec_root() is None,
            r matches Some(s) ==> self.spec_root() == Some(s@),
    {
        match &self.root {
            Some(r) => Some(r),
            None => None,
        }
    }

    /// Represents the total files that are open within the manager
    pub fn file_cnt(&self) -> (n: usize)
        ensures
            n == self.spec_files().len(),
    {
        self.files.len()
    }

    /// Whether a file is open with this id
    pub fn has_file(&self, id: u32) -> (b: bool)
        ensures
            b == self.spec_files().contains_key(id),
    {
        self.files.contains_key(&id)
    }

    /// Looks up an open file by its associated `id`
    pub fn get(&self, id: u32) -> (r: Option<&LocalFile>)
        ensures
            r is None <==> !self.spec_files().contains_key(id),
            r matches Some(f) ==> *f == self.spec_files()[id] && f.spec_id() == id,
    {
        proof {
            use_type_invariant(self);
        }
        self.files.get(&id)
    }

    /// Whether no open file other than the one with id `except` lies at
    /// `path`
    pub fn path_is_free(&self, path: &str, except: Option<u32>) -> (b: bool)
        ensures
            b == spec_path_free(self.spec_files(), path@, except),
    {
        let ghost m = self.files@;
        for pair in it: self.files.iter()
            invariant
                m == self.files@,
                it.seq() == spec_hash_map_iter(&self.files).remaining(),
                forall|i: int|
                    0 <= i < it.index() ==> except != Some(*(#[trigger] it.seq()[i]).0) ==> (
                    !spec_same_path(it.seq()[i].1.spec_path(), path@) && !spec_same_path(
                        path@,
                        it.seq()[i].1.spec_path(),
                    )),
        {
            proof {
                let v = spec_hash_map_iter(&self.files).remaining();
                let i = it.index();
                assert(pair == v[i]);
                assert(m.contains_key(*v[i].0));
                assert(m[*v[i].0] == *v[i].1);
            }
            let (id, f) = pair;
            let skip = match except {
                Some(e) => e == *id,
                None => false,
            };
            if !skip && (same_path(f.path.as_str(), path) || same_path(path, f.path.as_str())) {
                assert(self.spec_files().contains_key(*id) && except != Some(*id));
                return false;
            }
        }
        proof {
            assert forall|id: u32| #[trigger]
                self.spec_files().contains_key(id) && except != Some(id) implies !spec_same_path(
                self.spec_files()[id].spec_path(),
                path@,
            ) && !spec_same_path(path@, self.spec_files()[id].spec_path()) by {
                let v = spec_hash_map_iter(&self.files).remaining();
                assert(v.contains((&id, &m[id])));
                let i = choose|i: int| 0 <= i < v.len() && v[i] == (&id, &m[id]);
                assert(*v[i].0 == id);
            }
        }
        true
    }

    /// Checks `path` to see if is okay, returning the fully-realized path.
    ///
    /// With a root, a relative `path` is placed within the root (joined onto
    /// it) and an absolute one must start with the root; either way, once
    /// `.` and `..` are resolved, the result must still lie within the
    /// root. Paths are read as on Unix: segments are separated by `/`, and
    /// a path is absolute when it starts with `/`. Under a root made of
    /// ordinary names (no `.`, `..` or empty segment), a relative path of
    /// ordinary names, hidden ones such as `.gitignore` among them, is
    /// always allowed, and so is such an absolute path below the root.
    pub fn validate_path(&self, path: &str) -> (r: Result<String, FsError>)
        ensures
            spec_path_allowed(self.spec_root(), path@) ==> (r matches Ok(p) && p@ == spec_full_path(
                self.spec_root(),
                path@,
            )),
            !spec_path_allowed(self.spec_root(), path@) ==> r == Err::<String, FsError>(
                FsError::PermissionDenied,
            ),
            r matches Ok(p) ==> spec_within_root(self.spec_root(), p@),
            self.spec_root() matches Some(root) ==> (spec_is_absolute(root) && spec_plain_path(root)
                && !spec_is_absolute(path@) && spec_plain_path(path@) ==> (r matches Ok(p) && p@
                == root + seq!['/'] + path@)),
            self.spec_root() matches Some(root) ==> (spec_is_absolute(root) && spec_plain_path(root)
                && spec_plain_path(path@) && path@.len() > root.len() && path@.subrange(
                0,
                root.len() as int,
            ) == root && path@[root.len() as int] == '/' ==> (r matches Ok(p) && p@ == path@)),
    {
        match &self.root {
            Some(root) => {
                if is_absolute(path) && !starts_with(path, root.as_str()) {
                    return Err(FsError::PermissionDenied);
                }
                let full = join(root.as_str(), path);
                let normal = normalize(full.as_str());
                let normal_root = normalize(root.as_str());
                proof {
                    if spec_is_absolute(root@) && spec_plain_path(root@) && !spec_is_absolute(path@)
                        && spec_plain_path(path@) {
                        lemma_plain_join(root@, path@);
                        lemma_plain_path_is_normal(root@);
                        lemma_plain_path_is_normal(full@);
                        assert(normal@.subrange(0, root@.len() as int) =~= root@);
                        assert(normal@[root@.len() as int] == '/');
                        assert(root@.last() != '/');
                        assert(normal@[0] == '/');
                    }
                    if spec_is_absolute(root@) && spec_plain_path(root@) && spec_plain_path(path@)
                        && path@.len() > root@.len() && path@.subrange(0, root@.len() as int)
                        == root@ && path@[root@.len() as int] == '/' {
                        assert(path@[0] == root@[0]);
                        lemma_plain_path_is_normal(root@);
                        lemma_plain_path_is_normal(path@);
                        assert(root@.last() != '/');
                        assert(normal@[0] == '/');
                    }
                }
                if starts_with(normal.as_str(), normal_root.as_str()) && (leading_parent(
                    normal_root.as_str(),
                ) || !leading_parent(normal.as_str())) {
                    Ok(full)
                } else {
                    Err(FsError::PermissionDenied)
                }
            },
            None => Ok(path.to_owned()),
        }
    }

    /// Checks that `path` is not an open file or (if dir) does not contain
    /// any open files managed by the file system manager; open files are
    /// recorded under their canonical paths, so `path` is to be canonical
    pub fn check_no_open_files(&self, path: &str) -> (r: Result<(), FsError>)
        ensures
            r is Ok <==> !spec_has_open_file_under(self.spec_files(), path@),
            r matches Err(e) ==> (e matches FsError::FileOpen { path: p } && exists|id: u32|
                self.spec_files().contains_key(id) && self.spec_files()[id].spec_path() == p@
                    && spec_starts_with(p@, path@)),
    {
        let ghost m = self.files@;
        for pair in it: self.files.iter()
            invariant
                m == self.files@,
                it.seq() == spec_hash_map_iter(&self.files).remaining(),
                forall|i: int|
                    0 <= i < it.index() ==> !spec_starts_with(
                        (#[trigger] it.seq()[i]).1.spec_path(),
                        path@,
                    ),
        {
            proof {
                let v = spec_hash_map_iter(&self.files).remaining();
                let i = it.index();
                assert(pair == v[i]);
                assert(m.contains_key(*v[i].0));
                assert(m[*v[i].0] == *v[i].1);
            }
            let (id, f) = pair;
            if starts_with(f.path.as_str(), path) {
                let p = f.path.clone();
                assert(self.spec_files().contains_key(*id) && self.spec_files()[*id].spec_path()
                    == p@);
                return Err(FsError::FileOpen { path: p });
            }
        }
        proof {
            assert forall|id: u32| self.spec_files().contains_key(id) implies !spec_starts_with(
                self.spec_files()[id].spec_path(),
                path@,
            ) by {
                let v = spec_hash_map_iter(&self.files).remaining();
                assert(v.contains((&id, &m[id])));
                let i = choose|i: int| 0 <= i < v.len() && v[i] == (&id, &m[id]);
                assert(!spec_starts_with(v[i].1.spec_path(), path@));
            }
        }
        Ok(())
    }

    /// Decides how to open a file, creating it if `create` is true, using
    /// `write` and `read` for permissions. `canonical` is the canonical form
    /// of the full path (see `validate_path`) when the file exists; open
    /// files, which are recorded under their canonical paths, are looked up
    /// by it.
    ///
    /// If the file is already open with the permissions asked for, the
    /// existing instance is used. If permissions differ where the open file
    /// lacks read or write access that the request asks for, the file is to
    /// be opened anew with the permissions of both, under the same id and
    /// signature.
    pub fn plan_open_file(
        &self,
        path: &str,
        canonical: Option<&str>,
        create: bool,
        write: bool,
        read: bool,
    ) -> (r: Result<OpenPlan, FsError>)
        ensures
            !spec_path_allowed(self.spec_root(), path@) ==> r == Err::<OpenPlan, FsError>(
                FsError::PermissionDenied,
            ),
            spec_path_allowed(self.spec_root(), path@) ==> r is Ok,
            r matches Ok(p) ==> spec_open_plan(
                self.spec_files(),
                self.spec_root(),
                path@,
                spec_opt_view(canonical),
                create,
                write,
                read,
                p,
            ),
            r matches Ok(OpenPlan::Open { path: p, .. }) ==> spec_within_root(self.spec_root(), p@),
            spec_paths_unique(self.spec_files()) && r is Ok ==> forall|id: u32|
                #[trigger] self.spec_files().contains_key(id) && self.spec_files()[id].spec_path()
                    == spec_lookup_path(
                    spec_full_path(self.spec_root(), path@),
                    spec_opt_view(canonical),
                ) ==> {
                    let f = self.spec_files()[id];
                    &&& spec_covers(f.spec_permissions(), read, write) ==> r == Ok::<
                        OpenPlan,
                        FsError,
                    >(OpenPlan::Existing(f.handle_spec()))
                    &&& !spec_covers(f.spec_permissions(), read, write) ==> (r matches Ok(
                        OpenPlan::Open { reuse: Some(h), .. },
                    ) && h == f.handle_spec())
                },
    {
        proof {
            use_type_invariant(self);
        }
        let full = match self.validate_path(path) {
            Ok(p) => p,
            Err(e) => return Err(e),
        };
        let lookup: &str = match canonical {
            Some(c) => c,
            None => full.as_str(),
        };
        let ghost m = self.files@;
        for pair in it: self.files.iter()
            invariant
                m == self.files@,
                keyed_by_id(m),
                it.seq() == spec_hash_map_iter(&self.files).remaining(),
                spec_path_allowed(self.spec_root(), path@),
                full@ == spec_full_path(self.spec_root(), path@),
                lookup@ == spec_lookup_path(full@, spec_opt_view(canonical)),
                spec_within_root(self.spec_root(), full@),
                forall|i: int|
                    0 <= i < it.index() ==> !spec_same_path(
                        (#[trigger] it.seq()[i]).1.spec_path(),
                        lookup@,
                    ) && it.seq()[i].1.spec_path() != lookup@,
        {
            proof {
                let v = spec_hash_map_iter(&self.files).remaining();
                let i = it.index();
                assert(pair == v[i]);
                assert(m.contains_key(*v[i].0));
                assert(m[*v[i].0] == *v[i].1);
            }
            let (fid, file) = pair;
            if same_path(file.path.as_str(), lookup) {
                proof {
                    assert forall|id: u32|
                        #[trigger] m.contains_key(id) && m[id].spec_path() == lookup@
                            && spec_paths_unique(m) implies id == *fid by {
                        if id != *fid {
                            assert(!spec_same_path(m[*fid].spec_path(), m[id].spec_path()));
                        }
                    }
                }
                let permissions = file.permissions;
                if (permissions.read || !read) && (permissions.write || !write) {
                    return Ok(OpenPlan::Existing(file.handle()));
                } else {
                    let merged = LocalFilePermissions {
                        read: permissions.read || read,
                        write: permissions.write || write,
                    };
                    return Ok(
                        OpenPlan::Open {
                            path: full,
                            create,
                            permissions: merged,
                            reuse: Some(file.handle()),
                        },
                    );
                }
            }
        }
        proof {
            assert forall|id: u32| #[trigger]
                self.spec_files().contains_key(id) implies !spec_same_path(
                self.spec_files()[id].spec_path(),
                lookup@,
            ) by {
                let v = spec_hash_map_iter(&self.files).remaining();
                assert(v.contains((&id, &m[id])));
                let i = choose|i: int| 0 <= i < v.len() && v[i] == (&id, &m[id]);
                assert(!spec_same_path(v[i].1.spec_path(), lookup@));
            }
            assert forall|id: u32| #[trigger]
                self.spec_files().contains_key(id) implies self.spec_files()[id].spec_path()
                != lookup@ by {
                let v = spec_hash_map_iter(&self.files).remaining();
                assert(v.contains((&id, &m[id])));
                let i = choose|i: int| 0 <= i < v.len() && v[i] == (&id, &m[id]);
                assert(v[i].1.spec_path() != lookup@);
            }
        }
        Ok(
            OpenPlan::Open {
                path: full,
                create,
                permissions: LocalFilePermissions { read, write },
                reuse: None,
            },
        )
    }

    /// Records a file that was opened as an `OpenPlan::Open` directed, at
    /// `path` (its canonical path) with `permissions`: it takes the id and
    /// signature of `reuse` when given, and new random ones otherwise, and
    /// replaces any file open under the same id.
    pub fn finish_open_file(
        &mut self,
        path: String,
        permissions: LocalFilePermissions,
        reuse: Option<LocalFileHandle>,
    ) -> (h: LocalFileHandle)
        requires
            spec_path_free(old(self).spec_files(), path@, spec_reuse_id(reuse)),
        ensures
            final(self).spec_root() == old(self).spec_root(),
            spec_paths_unique(old(self).spec_files()) ==> spec_paths_unique(final(self).spec_files()),
            reuse matches Some(r) ==> h == r,
            final(self).spec_files().dom() == old(self).spec_files().dom().insert(h.id),
            final(self).spec_files().remove(h.id) == old(self).spec_files().remove(h.id),
            final(self).spec_files()[h.id].handle_spec() == h,
            final(self).spec_files()[h.id].spec_permissions() == permissions,
            final(self).spec_files()[h.id].spec_path() == path@,
    {
        let file = match reuse {
            Some(r) => LocalFile::with_id_and_sig(r.id, r.sig, permissions, path),
            None => LocalFile::new(permissions, path),
        };
        let h = file.handle();
        self.insert(file);
        assert(self.spec_files().remove(h.id) =~= old(self).spec_files().remove(h.id));
        proof {
            let before = old(self).spec_files();
            let after = self.spec_files();
            if spec_paths_unique(before) {
                assert forall|i: u32, j: u32|
                    after.contains_key(i) && after.contains_key(j) && i != j implies !spec_same_path(
                    #[trigger] after[i].spec_path(),
                    #[trigger] after[j].spec_path(),
                ) by {
                    if i == h.id {
                        assert(before.contains_key(j) && spec_reuse_id(reuse) != Some(j));
                    } else if j == h.id {
                        assert(before.contains_key(i) && spec_reuse_id(reuse) != Some(i));
                    } else {
                        assert(before[i] == after[i] && before[j] == after[j]);
                    }
                }
            }
        }
        h
    }

    /// Puts a file into the manager, replacing any file with the same id
    fn insert(&mut self, file: LocalFile)
        ensures
            final(self).spec_root() == old(self).spec_root(),
            final(self).spec_files() == old(self).spec_files().insert(file.spec_id(), file),
    {
        proof {
            use_type_invariant(&*self);
        }
        let mut files: HashMap<u32, LocalFile> = HashMap::new();
        std::mem::swap(&mut files, &mut self.files);
        let id = file.id;
        files.insert(id, file);
        self.files = files;
    }

    /// Checks a path at which to create a directory, giving the full path
    pub fn plan_create_dir(&self, path: &str) -> (r: Result<String, FsError>)
        ensures
            spec_path_allowed(self.spec_root(), path@) ==> (r matches Ok(p) && p@ == spec_full_path(
                self.spec_root(),
                path@,
            )),
            !spec_path_allowed(self.spec_root(), path@) ==> r == Err::<String, FsError>(
                FsError::PermissionDenied,
            ),
            r matches Ok(p) ==> spec_within_root(self.spec_root(), p@),
    {
        self.validate_path(path)
    }

    /// Checks a directory whose entries are to be listed, giving the full
    /// path
    pub fn plan_dir_entries(&self, path: &str) -> (r: Result<String, FsError>)
        ensures
            spec_path_allowed(self.spec_root(), path@) ==> (r matches Ok(p) && p@ == spec_full_path(
                self.spec_root(),
                path@,
            )),
            !spec_path_allowed(self.spec_root(), path@) ==> r == Err::<String, FsError>(
                FsError::PermissionDenied,
            ),
            r matches Ok(p) ==> spec_within_root(self.spec_root(), p@),
    {
        self.validate_path(path)
    }

    /// Checks a path to be removed (a file, or a directory with all it
    /// holds): it must be allowed and hold no open file. `canonical` is the
    /// canonical form of the full path when it exists; open files, which are
    /// recorded under their canonical paths, are looked for under it. Gives
    /// the full path.
    pub fn plan_remove(&self, path: &str, canonical: Option<&str>) -> (r: Result<String, FsError>)
        ensures
            !spec_path_allowed(self.spec_root(), path@) ==> r == Err::<String, FsError>(
                FsError::PermissionDenied,
            ),
            spec_path_allowed(self.spec_root(), path@) ==> {
                let full = spec_full_path(self.spec_root(), path@);
                let lookup = spec_lookup_path(full, spec_opt_view(canonical));
                &&& !spec_has_open_file_under(self.spec_files(), lookup) ==> (r matches Ok(p) && p@
                    == full)
                &&& spec_has_open_file_under(self.spec_files(), lookup) ==> (r matches Err(
                    FsError::FileOpen { .. },
                ))
            },
            r matches Ok(p) ==> spec_within_root(self.spec_root(), p@),
    {
        let full = self.validate_path(path)?;
        match canonical {
            Some(c) => self.check_no_open_files(c)?,
            None => self.check_no_open_files(full.as_str())?,
        }
        Ok(full)
    }

    /// Checks a rename of `from` into `to` (a file, or a directory with all
    /// it holds): both must be allowed and `from` must hold no open file,
    /// looked for under `from_canonical`, the canonical form of the full
    /// path of `from`, when it exists. Gives the two full paths.
    pub fn plan_rename(&self, from: &str, from_canonical: Option<&str>, to: &str) -> (r: Result<
        (String, String),
        FsError,
    >)
        ensures
            !spec_path_allowed(self.spec_root(), from@) || !spec_path_allowed(
                self.spec_root(),
                to@,
            ) ==> r == Err::<(String, String), FsError>(FsError::PermissionDenied),
            spec_path_allowed(self.spec_root(), from@) && spec_path_allowed(self.spec_root(), to@)
                ==> {
                let full_from = spec_full_path(self.spec_root(), from@);
                let full_to = spec_full_path(self.spec_root(), to@);
                let lookup = spec_lookup_path(full_from, spec_opt_view(from_canonical));
                &&& !spec_has_open_file_under(self.spec_files(), lookup) ==> (r matches Ok(p)
                    && p.0@ == full_from && p.1@ == full_to)
                &&& spec_has_open_file_under(self.spec_files(), lookup) ==> (r matches Err(
                    FsError::FileOpen { .. },
                ))
            },
            r matches Ok(p) ==> spec_within_root(self.spec_root(), p.0@) && spec_within_root(
                self.spec_root(),
                p.1@,
            ),
    {
        let full_from = self.validate_path(from)?;
        let full_to = self.validate_path(to)?;
        match from_canonical {
            Some(c) => self.check_no_open_files(c)?,
            None => self.check_no_open_files(full_from.as_str())?,
        }
        Ok((full_from, full_to))
    }

    /// Applies the outcome of renaming the open file with `id` (attempted
    /// after its signature was checked); `None` if no such file is open
    pub fn finish_file_rename(&mut self, id: u32, to: String, outcome: Result<(), std::io::Error>) -> (r:
        Option<Result<u32, LocalFileError>>)
        ensures
            spec_paths_unique(old(self).spec_files()) && spec_path_free(
                old(self).spec_files(),
                to@,
                Some(id),
            ) ==> spec_paths_unique(final(self).spec_files()),
            final(self).spec_root() == old(self).spec_root(),
            !old(self).spec_files().contains_key(id) ==> r is None && final(self).spec_files()
                == old(self).spec_files(),
            old(self).spec_files().contains_key(id) ==> {
                let before = old(self).spec_files()[id];
                let after = final(self).spec_files()[id];
                &&& final(self).spec_files().dom() == old(self).spec_files().dom()
                &&& final(self).spec_files().remove(id) == old(self).spec_files().remove(id)
                &&& after.spec_id() == id
                &&& after.spec_permissions() == before.spec_permissions()
                &&& outcome is Ok ==> (r == Some(Ok::<u32, LocalFileError>(after.spec_sig()))
                    && after.spec_path() == to@ && after.spec_sig() != before.spec_sig())
                &&& outcome matches Err(e) ==> (r matches Some(Err(LocalFileError::IoError(x))) && x == e
                    && after == before)
            },
    {
        proof {
            use_type_invariant(&*self);
        }
        let mut files: HashMap<u32, LocalFile> = HashMap::new();
        std::mem::swap(&mut files, &mut self.files);
        let r = match files.remove(&id) {
            None => None,
            Some(mut f) => {
                let r = f.finish_rename(to, outcome);
                files.insert(id, f);
                Some(r)
            },
        };
        self.files = files;
        assert(self.spec_files().remove(id) =~= old(self).spec_files().remove(id));
        assert(self.spec_files().dom() =~= old(self).spec_files().dom());
        r
    }

    /// Applies the outcome of removing the open file with `id` (attempted
    /// after its signature was checked); `None` if no such file is open
    pub fn finish_file_remove(&mut self, id: u32, outcome: Result<(), std::io::Error>) -> (r: Option<
        Result<(), LocalFileError>,
    >)
        ensures
            spec_paths_unique(old(self).spec_files()) ==> spec_paths_unique(final(self).spec_files()),
            final(self).spec_root() == old(self).spec_root(),
            !old(self).spec_files().contains_key(id) ==> r is None && final(self).spec_files()
                == old(self).spec_files(),
            old(self).spec_files().contains_key(id) ==> {
                let before = old(self).spec_files()[id];
                let after = final(self).spec_files()[id];
                &&& final(self).spec_files().dom() == old(self).spec_files().dom()
                &&& final(self).spec_files().remove(id) == old(self).spec_files().remove(id)
                &&& after.spec_id() == id
                &&& after.spec_permissions() == before.spec_permissions()
                &&& after.spec_path() == before.spec_path()
                &&& outcome is Ok ==> (r matches Some(Ok(_)) && after.spec_sig() != before.spec_sig())
                &&& outcome matches Err(e) ==> (r matches Some(Err(LocalFileError::IoError(x))) && x == e
                    && after == before)
            },
    {
        proof {
            use_type_invariant(&*self);
        }
        let mut files: HashMap<u32, LocalFile> = HashMap::new();
        std::mem::swap(&mut files, &mut self.files);
        let r = match files.remove(&id) {
            None => None,
            Some(mut f) => {
                let r = f.finish_remove(outcome);
                files.insert(id, f);
                Some(r)
            },
        };
        self.files = files;
        assert(self.spec_files().remove(id) =~= old(self).spec_files().remove(id));
        assert(self.spec_files().dom() =~= old(self).spec_files().dom());
        r
    }

    /// Gives the open file with `id` a new signature, as its contents were
    /// touched; `None` if no such file is open
    pub fn mark_file_modified(&mut self, id: u32) -> (r: Option<u32>)
        ensures
            spec_paths_unique(old(self).spec_files()) ==> spec_paths_unique(final(self).spec_files()),
            final(self).spec_root() == old(self).spec_root(),
            !old(self).spec_files().contains_key(id) ==> r is None && final(self).spec_files()
                == old(self).spec_files(),
            old(self).spec_files().contains_key(id) ==> {
                let before = old(self).spec_files()[id];
                let after = final(self).spec_files()[id];
                &&& final(self).spec_files().dom() == old(self).spec_files().dom()
                &&& final(self).spec_files().remove(id) == old(self).spec_files().remove(id)
                &&& after.spec_id() == id
                &&& after.spec_permissions() == before.spec_permissions()
                &&& after.spec_path() == before.spec_path()
                &&& r == Some(after.spec_sig())
                &&& after.spec_sig() != before.spec_sig()
            },
    {
        proof {
            use_type_invariant(&*self);
        }
        let mut files: HashMap<u32, LocalFile> = HashMap::new();
        std::mem::swap(&mut files, &mut self.files);
        let r = match files.remove(&id) {
            None => None,
            Some(mut f) => {
                let r = f.mark_modified();
                files.insert(id, f);
                Some(r)
            },
        };
        self.files = files;
        assert(self.spec_files().remove(id) =~= old(self).spec_files().remove(id));
        assert(self.spec_files().dom() =~= old(self).spec_files().dom());
        r
    }

    /// Closes an open file by `handle`.
    ///
    /// Will fail if no file with `handle` id is open, or if the signature
    /// on the file is different than that of `handle`.
    pub fn close_file(&mut self, handle: LocalFileHandle) -> (r: Result<(), FsError>)
        ensures
            spec_paths_unique(old(self).spec_files()) ==> spec_paths_unique(final(self).spec_files()),
            final(self).spec_root() == old(self).spec_root(),
            !old(self).spec_files().contains_key(handle.id) ==> {
                &&& r == Err::<(), FsError>(FsError::NoOpenFile { id: handle.id })
                &&& final(self).spec_files() == old(self).spec_files()
            },
            old(self).spec_files().contains_key(handle.id) && old(self).spec_files()[handle.id].spec_sig()
                != handle.sig ==> {
                &&& r == Err::<(), FsError>(FsError::SignatureInvalid { id: handle.id })
                &&& final(self).spec_files() == old(self).spec_files()
            },
            old(self).spec_files().contains_key(handle.id) && old(self).spec_files()[handle.id].spec_sig()
                == handle.sig ==> {
                &&& r is Ok
                &&& final(self).spec_files() == old(self).spec_files().remove(handle.id)
            },
    {
        proof {
            use_type_invariant(&*self);
        }
        let sig = match self.files.get(&handle.id) {
            None => return Err(FsError::NoOpenFile { id: handle.id }),
            Some(f) => f.sig,
        };
        if sig != handle.sig {
            return Err(FsError::SignatureInvalid { id: handle.id });
        }
        let mut files: HashMap<u32, LocalFile> = HashMap::new();
        std::mem::swap(&mut files, &mut self.files);
        files.remove(&handle.id);
        self.files = files;
        Ok(())
    }
}

impl LocalFile {
    /// The handle of a file record
    pub open spec fn handle_spec(self) -> LocalFileHandle {
        LocalFileHandle { id: self.spec_id(), sig: self.spec_sig() }
    }
}

/// Closing undoes opening: when a file that was not open is recorded as
/// opened (`finish_open_file` taking `before` to `after` and returning `h`),
/// `h` is the current handle of an open file, so that closing it succeeds,
/// and what closing leaves (the files of `after` without `h.id`) are the
/// files of `before`.
pub proof fn lemma_close_undoes_open(
    before: Map<u32, LocalFile>,
    after: Map<u32, LocalFile>,
    h: LocalFileHandle,
)
    requires
        !before.contains_key(h.id),
        after.dom() == before.dom().insert(h.id),
        after.remove(h.id) == before.remove(h.id),
        after[h.id].handle_spec() == h,
    ensures
        after.contains_key(h.id),
        after[h.id].spec_sig() == h.sig,
        after.remove(h.id) == before,
{
    assert(before.remove(h.id) =~= before);
}

/// A file is never opened twice: when some open file lies at the path that
/// a request to open resolves to (its canonical path, when the file exists), the plan for the request either hands out
/// an open file's handle or reopens an open file under its id and
/// signature; it never opens the path as a new file.
pub proof fn lemma_open_file_never_duplicated(
    files: Map<u32, LocalFile>,
    root: Option<Seq<char>>,
    path: Seq<char>,
    canonical: Option<Seq<char>>,
    create: bool,
    write: bool,
    read: bool,
    plan: OpenPlan,
    id: u32,
)
    requires
        files.contains_key(id),
        spec_same_path(files[id].spec_path(), spec_lookup_path(spec_full_path(root, path), canonical)),
        spec_open_plan(files, root, path, canonical, create, write, read, plan),
    ensures
        plan matches OpenPlan::Existing(h) ==> files.contains_key(h.id) && files[h.id].handle_spec()
            == h,
        plan matches OpenPlan::Open { reuse, .. } ==> (reuse matches Some(h) && files.contains_key(
            h.id,
        ) && files[h.id].handle_spec() == h),
{
}

} // verus!
