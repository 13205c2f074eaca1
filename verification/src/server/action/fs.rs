use crate::server::action::{Content, IoErrorReply, Step};
use crate::server::dir::{LocalDirEntry, LocalDirRenameError};
use crate::server::fs::{
    spec_full_path, spec_has_open_file_under, spec_lookup_path, spec_open_plan, spec_opt_view,
    spec_path_allowed, spec_path_free, spec_paths_unique, spec_reuse_id, spec_within_root, FsError, LocalFileError, LocalFileHandle,
    LocalFilePermissions, OpenPlan,
};
use crate::server::state::{spec_file_touched, spec_same_but_files, ServerState};
use vstd::prelude::*;

verus! {

/// Opens a file for a client, where `canonical` is the canonical form of the
/// full path (`FileSystemManager::validate_path`) when the file exists: when
/// the path is refused or the file is open
/// already with the permissions asked for, replies at once (touching the
/// file's id in the latter case); otherwise gives the plan by which the file
/// is to be opened, for `finish_open_file` to complete
pub fn do_open_file(
    state: &mut ServerState,
    path: &str,
    canonical: Option<&str>,
    create_if_missing: bool,
    write_access: bool,
    read_access: bool,
    now: u64,
) -> (r: Step<OpenPlan>)
    ensures
        spec_same_but_files(*old(state), *final(state)),
        final(state).spec_fs_manager() == old(state).spec_fs_manager(),
        !spec_path_allowed(old(state).spec_fs_manager().spec_root(), path@) ==> {
            &&& r matches Step::Reply(Content::IoError(IoErrorReply::Fs(FsError::PermissionDenied)))
            &&& final(state).spec_file_ids() == old(state).spec_file_ids()
        },
        spec_path_allowed(old(state).spec_fs_manager().spec_root(), path@) ==> {
            ||| r matches Step::Proceed(p) && p matches OpenPlan::Open { path: fp, .. }
                && spec_within_root(old(state).spec_fs_manager().spec_root(), fp@) && spec_open_plan(
                old(state).spec_fs_manager().spec_files(),
                old(state).spec_fs_manager().spec_root(),
                path@,
                spec_opt_view(canonical),
                create_if_missing,
                write_access,
                read_access,
                p,
            ) && final(state).spec_file_ids() == old(state).spec_file_ids()
            ||| r matches Step::Reply(Content::FileOpened { id, sig, path: p, read, write })
                && spec_open_plan(
                old(state).spec_fs_manager().spec_files(),
                old(state).spec_fs_manager().spec_root(),
                path@,
                spec_opt_view(canonical),
                create_if_missing,
                write_access,
                read_access,
                OpenPlan::Existing(LocalFileHandle { id, sig }),
            ) && p@ == path@ && read == read_access && write == write_access && final(state).spec_file_ids() == spec_file_touched(*old(state), id, now)
        },
{
    match state.fs_manager().plan_open_file(
        path,
        canonical,
        create_if_missing,
        write_access,
        read_access,
    ) {
        Err(e) => Step::Reply(Content::IoError(IoErrorReply::Fs(e))),
        Ok(OpenPlan::Existing(h)) => {
            state.touch_file_id(h.id, now);
            Step::Reply(
                Content::FileOpened {
                    id: h.id,
                    sig: h.sig,
                    path: path.to_owned(),
                    read: read_access,
                    write: write_access,
                },
            )
        },
        Ok(plan) => Step::Proceed(plan),
    }
}

/// Completes the opening of a file that `do_open_file` planned: records the
/// file opened at `outcome`'s canonical path and touches its id, or passes
/// on the error of opening it. When another open file came to lie at that
/// path meanwhile, the manager keeps one record per path: nothing is
/// recorded and the reply says that a file is open there.
pub fn finish_open_file(
    state: &mut ServerState,
    path: &str,
    write_access: bool,
    read_access: bool,
    permissions: LocalFilePermissions,
    reuse: Option<LocalFileHandle>,
    outcome: Result<String, std::io::Error>,
    now: u64,
) -> (r: Content)
    ensures
        spec_same_but_files(*old(state), *final(state)),
        outcome matches Err(e) ==> {
            &&& r matches Content::IoError(IoErrorReply::Io(x)) && x == e
            &&& final(state).spec_fs_manager() == old(state).spec_fs_manager()
            &&& final(state).spec_file_ids() == old(state).spec_file_ids()
        },
        outcome matches Ok(canonical) ==> !spec_path_free(
            old(state).spec_fs_manager().spec_files(),
            canonical@,
            spec_reuse_id(reuse),
        ) ==> {
            &&& r matches Content::IoError(IoErrorReply::Fs(FsError::FileOpen { path: p })) && p@
                == canonical@
            &&& final(state).spec_fs_manager() == old(state).spec_fs_manager()
            &&& final(state).spec_file_ids() == old(state).spec_file_ids()
        },
        outcome matches Ok(canonical) ==> spec_path_free(
            old(state).spec_fs_manager().spec_files(),
            canonical@,
            spec_reuse_id(reuse),
        ) ==> (spec_paths_unique(old(state).spec_fs_manager().spec_files()) ==> spec_paths_unique(
            final(state).spec_fs_manager().spec_files(),
        )) && (r matches Content::FileOpened {
            id,
            sig,
            path: p,
            read,
            write,
        } && p@ == path@ && read == read_access && write == write_access && (reuse matches Some(
            u,
        ) ==> u == LocalFileHandle { id, sig }) && final(state).spec_fs_manager().spec_files().dom()
            == old(state).spec_fs_manager().spec_files().dom().insert(id) && final(state).spec_fs_manager().spec_files().remove(id) == old(state).spec_fs_manager().spec_files().remove(
            id,
        ) && final(state).spec_fs_manager().spec_files()[id].handle_spec() == LocalFileHandle {
            id,
            sig,
        } && final(state).spec_fs_manager().spec_files()[id].spec_permissions() == permissions
            && final(state).spec_fs_manager().spec_files()[id].spec_path() == canonical@ && final(state).spec_file_ids() == spec_file_touched(*old(state), id, now)),
{
    match outcome {
        Err(e) => Content::IoError(IoErrorReply::Io(e)),
        Ok(canonical) => {
            let except = match reuse {
                Some(u) => Some(u.id),
                None => None,
            };
            if !state.fs_manager().path_is_free(canonical.as_str(), except) {
                return Content::IoError(IoErrorReply::Fs(FsError::FileOpen { path: canonical }));
            }
            let h = state.fs_manager_mut().finish_open_file(canonical, permissions, reuse);
            state.touch_file_id(h.id, now);
            Content::FileOpened {
                id: h.id,
                sig: h.sig,
                path: path.to_owned(),
                read: read_access,
                write: write_access,
            }
        },
    }
}

/// Closes the file with `id` for a client who gives `sig` as its signature,
/// after touching the id; on success the id is no longer tracked
pub fn do_close_file(state: &mut ServerState, id: u32, sig: u32, now: u64) -> (r: Content)
    ensures
        spec_same_but_files(*old(state), *final(state)),
        !old(state).spec_fs_manager().spec_files().contains_key(id) ==> {
            &&& r matches Content::IoError(IoErrorReply::Fs(FsError::NoOpenFile { id: i })) && i
                == id
            &&& final(state).spec_fs_manager().spec_files() == old(
                state,
            ).spec_fs_manager().spec_files()
            &&& final(state).spec_file_ids() == spec_file_touched(*old(state), id, now)
        },
        old(state).spec_fs_manager().spec_files().contains_key(id) && old(
            state,
        ).spec_fs_manager().spec_files()[id].spec_sig() != sig ==> {
            &&& r matches Content::IoError(IoErrorReply::Fs(FsError::SignatureInvalid { id: i }))
                && i == id
            &&& final(state).spec_fs_manager().spec_files() == old(
                state,
            ).spec_fs_manager().spec_files()
            &&& final(state).spec_file_ids() == spec_file_touched(*old(state), id, now)
        },
        old(state).spec_fs_manager().spec_files().contains_key(id) && old(
            state,
        ).spec_fs_manager().spec_files()[id].spec_sig() == sig ==> {
            &&& r matches Content::FileClosed { id: i } && i == id
            &&& final(state).spec_fs_manager().spec_files() == old(
                state,
            ).spec_fs_manager().spec_files().remove(id)
            &&& final(state).spec_file_ids() == old(state).spec_file_ids().remove(id)
        },
{
    state.touch_file_id(id, now);
    let handle = LocalFileHandle { id, sig };
    match state.fs_manager_mut().close_file(handle) {
        Ok(()) => {
            state.remove_file_id(id);
            assert(state.spec_file_ids() =~= old(state).spec_file_ids().remove(id));
            Content::FileClosed { id }
        },
        Err(e) => Content::IoError(IoErrorReply::Fs(e)),
    }
}

/// The first step of an operation on the open file with `id`: touches the
/// id, then replies at once when no such file is open or `sig` is not its
/// signature (giving the current one); otherwise gives the file's path
fn check_open_file(state: &mut ServerState, id: u32, sig: u32, now: u64) -> (r: Step<String>)
    ensures
        spec_same_but_files(*old(state), *final(state)),
        final(state).spec_fs_manager() == old(state).spec_fs_manager(),
        final(state).spec_file_ids() == spec_file_touched(*old(state), id, now),
        spec_check_outcome(*old(state), id, sig, r),
{
    state.touch_file_id(id, now);
    match state.fs_manager().get(id) {
        None => Step::Reply(Content::IoError(IoErrorReply::InvalidFileId(id))),
        Some(f) => {
            if f.sig() != sig {
                Step::Reply(Content::FileSigChanged { id, sig: f.sig() })
            } else {
                Step::Proceed(f.path().to_owned())
            }
        },
    }
}

/// The first step of an operation on the open file with `id` given `sig`:
/// no such file, a signature that is not the current one, or the file's path
pub open spec fn spec_check_outcome(s: ServerState, id: u32, sig: u32, r: Step<String>) -> bool {
    let files = s.spec_fs_manager().spec_files();
    if !files.contains_key(id) {
        r matches Step::Reply(Content::IoError(IoErrorReply::InvalidFileId(i))) && i == id
    } else if files[id].spec_sig() != sig {
        r matches Step::Reply(Content::FileSigChanged { id: i, sig: s2 }) && i == id && s2
            == files[id].spec_sig()
    } else {
        r matches Step::Proceed(p) && p@ == files[id].spec_path()
    }
}

/// Once an open file has taken a new signature (as after a write that
/// truncated it, a rename or a removal), a request that still gives the
/// signature it had is not carried out: the reply says that the file
/// changed and gives the new signature
pub proof fn lemma_stale_signature_refused(
    before: ServerState,
    after: ServerState,
    id: u32,
    r: Step<String>,
)
    requires
        before.spec_fs_manager().spec_files().contains_key(id),
        after.spec_fs_manager().spec_files().contains_key(id),
        after.spec_fs_manager().spec_files()[id].spec_sig() != before.spec_fs_manager().spec_files()[id].spec_sig(),
        spec_check_outcome(after, id, before.spec_fs_manager().spec_files()[id].spec_sig(), r),
    ensures
        r matches Step::Reply(Content::FileSigChanged { id: i, sig }) && i == id && sig
            == after.spec_fs_manager().spec_files()[id].spec_sig() && sig
            != before.spec_fs_manager().spec_files()[id].spec_sig(),
{
}

/// Renames the open file with `id`, first step: checks the file and its
/// signature (see `spec_check_outcome`), giving its path to rename from
pub fn do_rename_file(state: &mut ServerState, id: u32, sig: u32, now: u64) -> (r: Step<String>)
    ensures
        spec_same_but_files(*old(state), *final(state)),
        final(state).spec_fs_manager() == old(state).spec_fs_manager(),
        final(state).spec_file_ids() == spec_file_touched(*old(state), id, now),
        spec_check_outcome(*old(state), id, sig, r),
{
    check_open_file(state, id, sig, now)
}

/// Renames the open file with `id`, second step: records the outcome of
/// renaming it to `to`, replying with its new signature or the error
pub fn finish_rename_file(
    state: &mut ServerState,
    id: u32,
    to: String,
    outcome: Result<(), std::io::Error>,
) -> (r: Content)
    ensures
        spec_same_but_files(*old(state), *final(state)),
        final(state).spec_file_ids() == old(state).spec_file_ids(),
        !old(state).spec_fs_manager().spec_files().contains_key(id) ==> {
            &&& r matches Content::IoError(IoErrorReply::InvalidFileId(i)) && i == id
            &&& final(state).spec_fs_manager().spec_files() == old(state).spec_fs_manager().spec_files()
        },
        old(state).spec_fs_manager().spec_files().contains_key(id) ==> {
            let after = final(state).spec_fs_manager().spec_files()[id];
            &&& final(state).spec_fs_manager().spec_files().remove(id) == old(
                state,
            ).spec_fs_manager().spec_files().remove(id)
            &&& final(state).spec_fs_manager().spec_files().contains_key(id)
            &&& outcome is Ok ==> (r matches Content::FileRenamed { id: i, sig } && i == id && sig
                == after.spec_sig() && after.spec_path() == to@ && sig != old(
                state,
            ).spec_fs_manager().spec_files()[id].spec_sig())
            &&& outcome matches Err(e) ==> (r matches Content::IoError(IoErrorReply::Io(x)) && x == e && after == old(
                state,
            ).spec_fs_manager().spec_files()[id])
        },
{
    match state.fs_manager_mut().finish_file_rename(id, to, outcome) {
        None => Content::IoError(IoErrorReply::InvalidFileId(id)),
        Some(Ok(sig)) => Content::FileRenamed { id, sig },
        Some(Err(LocalFileError::IoError(e))) => Content::IoError(IoErrorReply::Io(e)),
        Some(Err(LocalFileError::SigMismatch)) => Content::IoError(IoErrorReply::InvalidFileId(id)),
    }
}

/// Removes the open file with `id`, first step: checks the file and its
/// signature (see `spec_check_outcome`), giving its path to remove
pub fn do_remove_file(state: &mut ServerState, id: u32, sig: u32, now: u64) -> (r: Step<String>)
    ensures
        spec_same_but_files(*old(state), *final(state)),
        final(state).spec_fs_manager() == old(state).spec_fs_manager(),
        final(state).spec_file_ids() == spec_file_touched(*old(state), id, now),
        spec_check_outcome(*old(state), id, sig, r),
{
    check_open_file(state, id, sig, now)
}

/// Removes the open file with `id`, second step: records the outcome of
/// removing it; on success the file takes a new signature and its id is no
/// longer tracked
pub fn finish_remove_file(state: &mut ServerState, id: u32, outcome: Result<(), std::io::Error>) -> (r:
    Content)
    ensures
        spec_same_but_files(*old(state), *final(state)),
        !old(state).spec_fs_manager().spec_files().contains_key(id) ==> {
            &&& r matches Content::IoError(IoErrorReply::InvalidFileId(i)) && i == id
            &&& final(state).spec_fs_manager().spec_files() == old(state).spec_fs_manager().spec_files()
            &&& final(state).spec_file_ids() == old(state).spec_file_ids()
        },
        old(state).spec_fs_manager().spec_files().contains_key(id) ==> {
            let after = final(state).spec_fs_manager().spec_files()[id];
            &&& final(state).spec_fs_manager().spec_files().remove(id) == old(
                state,
            ).spec_fs_manager().spec_files().remove(id)
            &&& final(state).spec_fs_manager().spec_files().contains_key(id)
            &&& outcome is Ok ==> {
                &&& r matches Content::FileRemoved { id: i, sig } && i == id && sig
                    == after.spec_sig()
                &&& after.spec_sig() != old(state).spec_fs_manager().spec_files()[id].spec_sig()
                &&& final(state).spec_file_ids() == old(state).spec_file_ids().remove(id)
            }
            &&& outcome matches Err(e) ==> {
                &&& r matches Content::IoError(IoErrorReply::Io(x)) && x == e
                &&& after == old(state).spec_fs_manager().spec_files()[id]
                &&& final(state).spec_file_ids() == old(state).spec_file_ids()
            }
        },
{
    match state.fs_manager_mut().finish_file_remove(id, outcome) {
        None => Content::IoError(IoErrorReply::InvalidFileId(id)),
        Some(Ok(())) => {
            state.remove_file_id(id);
            let sig = match state.fs_manager().get(id) {
                Some(f) => f.sig(),
                None => 0,
            };
            Content::FileRemoved { id, sig }
        },
        Some(Err(LocalFileError::IoError(e))) => Content::IoError(IoErrorReply::Io(e)),
        Some(Err(LocalFileError::SigMismatch)) => Content::IoError(IoErrorReply::InvalidFileId(id)),
    }
}

/// Reads the open file with `id`, first step: checks the file and its
/// signature (see `spec_check_outcome`)
pub fn do_read_file(state: &mut ServerState, id: u32, sig: u32, now: u64) -> (r: Step<String>)
    ensures
        spec_same_but_files(*old(state), *final(state)),
        final(state).spec_fs_manager() == old(state).spec_fs_manager(),
        final(state).spec_file_ids() == spec_file_touched(*old(state), id, now),
        spec_check_outcome(*old(state), id, sig, r),
{
    check_open_file(state, id, sig, now)
}

/// Reads the open file with `id`, second step: replies with the contents
/// read or the error
pub fn finish_read_file(id: u32, outcome: Result<Vec<u8>, std::io::Error>) -> (r: Content)
    ensures
        outcome matches Ok(c) ==> (r matches Content::FileContents { id: i, contents } && i == id
            && contents@ == c@),
        outcome matches Err(e) ==> (r matches Content::IoError(IoErrorReply::Io(x)) && x == e),
{
    match outcome {
        Ok(contents) => Content::FileContents { id, contents },
        Err(e) => Content::IoError(IoErrorReply::Io(e)),
    }
}

/// Overwrites the open file with `id`, first step: checks the file and its
/// signature (see `spec_check_outcome`)
pub fn do_write_file(state: &mut ServerState, id: u32, sig: u32, now: u64) -> (r: Step<String>)
    ensures
        spec_same_but_files(*old(state), *final(state)),
        final(state).spec_fs_manager() == old(state).spec_fs_manager(),
        final(state).spec_file_ids() == spec_file_touched(*old(state), id, now),
        spec_check_outcome(*old(state), id, sig, r),
{
    check_open_file(state, id, sig, now)
}

/// Overwrites the open file with `id`, second step: once the file was
/// truncated (`truncated`), its contents count as touched and the file takes
/// a new signature, whether or not the rest of the write succeeded; replies
/// with the signature or the error
pub fn finish_write_file(
    state: &mut ServerState,
    id: u32,
    truncated: bool,
    outcome: Result<(), std::io::Error>,
) -> (r: Content)
    ensures
        spec_same_but_files(*old(state), *final(state)),
        final(state).spec_file_ids() == old(state).spec_file_ids(),
        !old(state).spec_fs_manager().spec_files().contains_key(id) ==> {
            &&& r matches Content::IoError(IoErrorReply::InvalidFileId(i)) && i == id
            &&& final(state).spec_fs_manager() == old(state).spec_fs_manager()
        },
        old(state).spec_fs_manager().spec_files().contains_key(id) ==> {
            let before = old(state).spec_fs_manager().spec_files()[id];
            let after = final(state).spec_fs_manager().spec_files()[id];
            &&& final(state).spec_fs_manager().spec_files().remove(id) == old(
                state,
            ).spec_fs_manager().spec_files().remove(id)
            &&& final(state).spec_fs_manager().spec_files().contains_key(id)
            &&& after.spec_path() == before.spec_path()
            &&& after.spec_permissions() == before.spec_permissions()
            &&& !truncated ==> final(state).spec_fs_manager() == old(state).spec_fs_manager()
            &&& truncated ==> after.spec_sig() != before.spec_sig()
            &&& outcome is Ok ==> (r matches Content::FileWritten { id: i, sig } && i == id && sig
                == after.spec_sig())
            &&& outcome matches Err(e) ==> (r matches Content::IoError(IoErrorReply::Io(x)) && x == e)
        },
{
    if !state.fs_manager().has_file(id) {
        return Content::IoError(IoErrorReply::InvalidFileId(id));
    }
    if truncated {
        let _ = state.fs_manager_mut().mark_file_modified(id);
    }
    match outcome {
        Ok(()) => {
            let sig = match state.fs_manager().get(id) {
                Some(f) => f.sig(),
                None => 0,
            };
            Content::FileWritten { id, sig }
        },
        Err(e) => Content::IoError(IoErrorReply::Io(e)),
    }
}

/// Renames a file that is not open, first step: both paths must be allowed
/// and no open file may lie at `from` (looked for under `from_canonical`,
/// the canonical form of its full path, when it exists); gives the two full
/// paths
pub fn do_rename_unopened_file(
    state: &ServerState,
    from: &str,
    from_canonical: Option<&str>,
    to: &str,
) -> (r: Step<(String, String)>)
    ensures
        spec_rename_outcome(*state, from@, spec_opt_view(from_canonical), to@, r),
{
    match state.fs_manager().plan_rename(from, from_canonical, to) {
        Ok(paths) => Step::Proceed(paths),
        Err(e) => Step::Reply(Content::IoError(IoErrorReply::Fs(e))),
    }
}

/// The first step of a rename of `from` into `to`, as the manager of `s`
/// decides it
pub open spec fn spec_rename_outcome(
    s: ServerState,
    from: Seq<char>,
    from_canonical: Option<Seq<char>>,
    to: Seq<char>,
    r: Step<(String, String)>,
) -> bool {
    let root = s.spec_fs_manager().spec_root();
    let files = s.spec_fs_manager().spec_files();
    if !spec_path_allowed(root, from) || !spec_path_allowed(root, to) {
        r matches Step::Reply(Content::IoError(IoErrorReply::Fs(FsError::PermissionDenied)))
    } else if spec_has_open_file_under(
        files,
        spec_lookup_path(spec_full_path(root, from), from_canonical),
    ) {
        r matches Step::Reply(Content::IoError(IoErrorReply::Fs(FsError::FileOpen { .. })))
    } else {
        r matches Step::Proceed(p) && p.0@ == spec_full_path(root, from) && p.1@ == spec_full_path(
            root,
            to,
        ) && spec_within_root(root, p.0@) && spec_within_root(root, p.1@)
    }
}

/// The first step of a removal of `path`, as the manager of `s` decides it
pub open spec fn spec_remove_outcome(
    s: ServerState,
    path: Seq<char>,
    canonical: Option<Seq<char>>,
    r: Step<String>,
) -> bool {
    let root = s.spec_fs_manager().spec_root();
    let files = s.spec_fs_manager().spec_files();
    if !spec_path_allowed(root, path) {
        r matches Step::Reply(Content::IoError(IoErrorReply::Fs(FsError::PermissionDenied)))
    } else if spec_has_open_file_under(
        files,
        spec_lookup_path(spec_full_path(root, path), canonical),
    ) {
        r matches Step::Reply(Content::IoError(IoErrorReply::Fs(FsError::FileOpen { .. })))
    } else {
        r matches Step::Proceed(p) && p@ == spec_full_path(root, path) && spec_within_root(root, p@)
    }
}

/// The first step of an operation on the path `path` that only has to be
/// allowed, as the manager of `s` decides it
pub open spec fn spec_allowed_outcome(s: ServerState, path: Seq<char>, r: Step<String>) -> bool {
    let root = s.spec_fs_manager().spec_root();
    if !spec_path_allowed(root, path) {
        r matches Step::Reply(Content::IoError(IoErrorReply::Fs(FsError::PermissionDenied)))
    } else {
        r matches Step::Proceed(p) && p@ == spec_full_path(root, path) && spec_within_root(root, p@)
    }
}

/// Replies to a rename of `from` into `to` (a file that is not open, or a
/// directory) with the paths as the client gave them, or the error
pub fn finish_rename(from: &str, to: &str, outcome: Result<(), std::io::Error>, dir: bool) -> (r:
    Content)
    ensures
        outcome is Ok && !dir ==> (r matches Content::UnopenedFileRenamed { from: f, to: t } && f@
            == from@ && t@ == to@),
        outcome is Ok && dir ==> (r matches Content::DirRenamed { from: f, to: t } && f@ == from@
            && t@ == to@),
        outcome matches Err(e) ==> (r matches Content::IoError(IoErrorReply::Io(x)) && x == e),
{
    match outcome {
        Ok(()) => if dir {
            Content::DirRenamed { from: from.to_owned(), to: to.to_owned() }
        } else {
            Content::UnopenedFileRenamed { from: from.to_owned(), to: to.to_owned() }
        },
        Err(e) => Content::IoError(IoErrorReply::Io(e)),
    }
}

/// Whether a rename of a file goes on, given what the file system tells of
/// its source: whether it is a file, or the error of looking it up
pub fn check_file_rename_source(source_is_file: Result<bool, std::io::Error>) -> (r: Result<
    (),
    IoErrorReply,
>)
    ensures
        source_is_file matches Err(e) ==> (r matches Err(IoErrorReply::Io(x)) && x == e),
        source_is_file matches Ok(b) ==> (b ==> r is Ok) && (!b ==> r matches Err(
            IoErrorReply::NotAFile,
        )),
{
    match source_is_file {
        Err(e) => Err(IoErrorReply::Io(e)),
        Ok(true) => Ok(()),
        Ok(false) => Err(IoErrorReply::NotAFile),
    }
}

/// Removes a file that is not open, first step: the path must be allowed
/// and no open file may lie at it (looked for under `canonical`, the
/// canonical form of its full path, when it exists); gives the full path
pub fn do_remove_unopened_file(state: &ServerState, path: &str, canonical: Option<&str>) -> (r:
    Step<String>)
    ensures
        spec_remove_outcome(*state, path@, spec_opt_view(canonical), r),
{
    match state.fs_manager().plan_remove(path, canonical) {
        Ok(p) => Step::Proceed(p),
        Err(e) => Step::Reply(Content::IoError(IoErrorReply::Fs(e))),
    }
}

/// Replies to a removal of `path` (a file that is not open, or a directory)
/// with the path as the client gave it, or the error
pub fn finish_remove(path: &str, outcome: Result<(), std::io::Error>, dir: bool) -> (r: Content)
    ensures
        outcome is Ok && !dir ==> (r matches Content::UnopenedFileRemoved { path: p } && p@
            == path@),
        outcome is Ok && dir ==> (r matches Content::DirRemoved { path: p } && p@ == path@),
        outcome matches Err(e) ==> (r matches Content::IoError(IoErrorReply::Io(x)) && x == e),
{
    match outcome {
        Ok(()) => if dir {
            Content::DirRemoved { path: path.to_owned() }
        } else {
            Content::UnopenedFileRemoved { path: path.to_owned() }
        },
        Err(e) => Content::IoError(IoErrorReply::Io(e)),
    }
}

/// Creates a directory, first step: the path must be allowed; gives the
/// full path
pub fn do_create_dir(state: &ServerState, path: &str) -> (r: Step<String>)
    ensures
        spec_allowed_outcome(*state, path@, r),
{
    match state.fs_manager().plan_create_dir(path) {
        Ok(p) => Step::Proceed(p),
        Err(e) => Step::Reply(Content::IoError(IoErrorReply::Fs(e))),
    }
}

/// Replies to the creation of a directory at `path` (as the client gave it)
pub fn finish_create_dir(path: &str, outcome: Result<(), std::io::Error>) -> (r: Content)
    ensures
        outcome is Ok ==> (r matches Content::DirCreated { path: p } && p@ == path@),
        outcome matches Err(e) ==> (r matches Content::IoError(IoErrorReply::Io(x)) && x == e),
{
    match outcome {
        Ok(()) => Content::DirCreated { path: path.to_owned() },
        Err(e) => Content::IoError(IoErrorReply::Io(e)),
    }
}

/// Renames a directory, first step: both paths must be allowed and no open
/// file may lie within `from` (looked for under `from_canonical`, the
/// canonical form of its full path, when it exists); gives the two full
/// paths
pub fn do_rename_dir(state: &ServerState, from: &str, from_canonical: Option<&str>, to: &str) -> (r:
    Step<(String, String)>)
    ensures
        spec_rename_outcome(*state, from@, spec_opt_view(from_canonical), to@, r),
{
    do_rename_unopened_file(state, from, from_canonical, to)
}

/// Whether a rename of a directory goes on, given what the file system
/// tells of its source: whether it is a directory, or the error of looking
/// it up
pub fn check_dir_rename_source(source_is_dir: Result<bool, std::io::Error>) -> (r: Result<
    (),
    LocalDirRenameError,
>)
    ensures
        source_is_dir matches Err(e) ==> (r matches Err(LocalDirRenameError::FailedToGetMetadata(x))
            && x == e),
        source_is_dir matches Ok(b) ==> (b ==> r is Ok) && (!b ==> r matches Err(
            LocalDirRenameError::NotADirectory,
        )),
{
    match source_is_dir {
        Err(e) => Err(LocalDirRenameError::FailedToGetMetadata(e)),
        Ok(true) => Ok(()),
        Ok(false) => Err(LocalDirRenameError::NotADirectory),
    }
}

/// Replies to a rename of the directory `from` into `to` (as the client gave
/// them) with the paths, or the reason it failed
pub fn finish_rename_dir(from: &str, to: &str, outcome: Result<(), LocalDirRenameError>) -> (r:
    Content)
    ensures
        outcome is Ok ==> (r matches Content::DirRenamed { from: f, to: t } && f@ == from@ && t@
            == to@),
        outcome matches Err(LocalDirRenameError::NotADirectory) ==> (r matches Content::IoError(
            IoErrorReply::NotADirectory,
        )),
        outcome matches Err(LocalDirRenameError::FailedToGetMetadata(e)) ==> (r matches Content::IoError(
            IoErrorReply::Io(x),
        ) && x == e),
        outcome matches Err(LocalDirRenameError::IoError(e)) ==> (r matches Content::IoError(
            IoErrorReply::Io(x),
        ) && x == e),
{
    match outcome {
        Ok(()) => Content::DirRenamed { from: from.to_owned(), to: to.to_owned() },
        Err(LocalDirRenameError::NotADirectory) => Content::IoError(IoErrorReply::NotADirectory),
        Err(LocalDirRenameError::FailedToGetMetadata(e)) => Content::IoError(IoErrorReply::Io(e)),
        Err(LocalDirRenameError::IoError(e)) => Content::IoError(IoErrorReply::Io(e)),
    }
}

/// Removes a directory, first step: the path must be allowed and no open
/// file may lie within it (looked for under `canonical`, the canonical form
/// of its full path, when it exists); gives the full path
pub fn do_remove_dir(state: &ServerState, path: &str, canonical: Option<&str>) -> (r: Step<String>)
    ensures
        spec_remove_outcome(*state, path@, spec_opt_view(canonical), r),
{
    do_remove_unopened_file(state, path, canonical)
}

/// Lists a directory, first step: the path must be allowed; gives the full
/// path
pub fn do_list_dir_contents(state: &ServerState, path: &str) -> (r: Step<String>)
    ensures
        spec_allowed_outcome(*state, path@, r),
{
    match state.fs_manager().plan_dir_entries(path) {
        Ok(p) => Step::Proceed(p),
        Err(e) => Step::Reply(Content::IoError(IoErrorReply::Fs(e))),
    }
}

/// Replies to the listing of the directory at `path` (as the client gave it)
pub fn finish_list_dir_contents(path: &str, outcome: Result<Vec<LocalDirEntry>, std::io::Error>) -> (r:
    Content)
    ensures
        outcome matches Ok(es) ==> (r matches Content::DirContentsList { path: p, entries } && p@
            == path@ && entries@ == es@),
        outcome matches Err(e) ==> (r matches Content::IoError(IoErrorReply::Io(x)) && x == e),
{
    match outcome {
        Ok(entries) => Content::DirContentsList { path: path.to_owned(), entries },
        Err(e) => Content::IoError(IoErrorReply::Io(e)),
    }
}

} // verus!
