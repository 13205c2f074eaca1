use crate::server::action::{Content, IoErrorReply, Step};
use crate::server::proc::LocalProc;
use crate::server::state::{spec_proc_touched, spec_same_but_procs, ServerState};
use crate::server::ttl::TtlEntry;
use vstd::prelude::*;

verus! {

/// Records a process that was started for a client, tracking its id from
/// `now` on, or passes on the error of starting it
pub fn finish_exec_proc(state: &mut ServerState, outcome: Result<LocalProc, std::io::Error>, now: u64) -> (r:
    Content)
    ensures
        spec_same_but_procs(*old(state), *final(state)),
        outcome matches Err(e) ==> {
            &&& r matches Content::IoError(IoErrorReply::Io(x)) && x == e
            &&& final(state).spec_procs() == old(state).spec_procs()
            &&& final(state).spec_proc_ids() == old(state).spec_proc_ids()
        },
        outcome matches Ok(p) ==> {
            &&& r matches Content::ProcStarted { id } && id == p.spec_id()
            &&& final(state).spec_procs() == old(state).spec_procs().insert(p.spec_id(), p)
            &&& final(state).spec_proc_ids() == spec_proc_touched(*old(state), p.spec_id(), now)
        },
{
    match outcome {
        Ok(p) => {
            let id = p.id();
            state.insert_proc(p);
            state.touch_proc_id(id, now);
            Content::ProcStarted { id }
        },
        Err(e) => Content::IoError(IoErrorReply::Io(e)),
    }
}

/// Writes to the stdin of the process with `id`, first step: touches the id,
/// then replies at once when there is no such process or its stdin is not
/// piped; otherwise the write may go ahead
pub fn do_write_stdin(state: &mut ServerState, id: u32, now: u64) -> (r: Step<()>)
    ensures
        spec_same_but_procs(*old(state), *final(state)),
        final(state).spec_procs() == old(state).spec_procs(),
        final(state).spec_proc_ids() == spec_proc_touched(*old(state), id, now),
        !old(state).spec_procs().contains_key(id) ==> (r matches Step::Reply(
            Content::IoError(IoErrorReply::InvalidProcId(i)),
        ) && i == id),
        old(state).spec_procs().contains_key(id) && !old(
            state,
        ).spec_procs()[id].spec_supports_stdin() ==> (r matches Step::Reply(
            Content::IoError(IoErrorReply::BrokenPipe),
        )),
        old(state).spec_procs().contains_key(id) && old(
            state,
        ).spec_procs()[id].spec_supports_stdin() ==> r is Proceed,
{
    state.touch_proc_id(id, now);
    match state.get_proc(id) {
        None => Step::Reply(Content::IoError(IoErrorReply::InvalidProcId(id))),
        Some(p) => if p.supports_stdin() {
            Step::Proceed(())
        } else {
            Step::Reply(Content::IoError(IoErrorReply::BrokenPipe))
        },
    }
}

/// Writes to the stdin of the process with `id`, second step: replies to
/// the outcome of the write
pub fn finish_write_stdin(id: u32, outcome: Result<(), std::io::Error>) -> (r: Content)
    ensures
        outcome is Ok ==> (r matches Content::StdinWritten { id: i } && i == id),
        outcome matches Err(e) ==> (r matches Content::IoError(IoErrorReply::Io(x)) && x == e),
{
    match outcome {
        Ok(()) => Content::StdinWritten { id },
        Err(e) => Content::IoError(IoErrorReply::Io(e)),
    }
}

/// `after` is `before` with the stdout gathered taken out
pub open spec fn spec_stdout_taken(before: LocalProc, after: LocalProc) -> bool {
    &&& after.spec_stdout() == Seq::<u8>::empty()
    &&& after.spec_stderr() == before.spec_stderr()
    &&& after.spec_id() == before.spec_id()
    &&& after.spec_supports_stdin() == before.spec_supports_stdin()
    &&& after.spec_supports_stdout() == before.spec_supports_stdout()
    &&& after.spec_supports_stderr() == before.spec_supports_stderr()
    &&& after.spec_exit_status() == before.spec_exit_status()
}

/// `after` is `before` with the stderr gathered taken out
pub open spec fn spec_stderr_taken(before: LocalProc, after: LocalProc) -> bool {
    &&& after.spec_stderr() == Seq::<u8>::empty()
    &&& after.spec_stdout() == before.spec_stdout()
    &&& after.spec_id() == before.spec_id()
    &&& after.spec_supports_stdin() == before.spec_supports_stdin()
    &&& after.spec_supports_stdout() == before.spec_supports_stdout()
    &&& after.spec_supports_stderr() == before.spec_supports_stderr()
    &&& after.spec_exit_status() == before.spec_exit_status()
}

/// Replies with all stdout gathered from the process with `id` since it was
/// last asked for, after touching the id; the output is then no longer kept
pub fn do_get_stdout(state: &mut ServerState, id: u32, now: u64) -> (r: Content)
    ensures
        spec_same_but_procs(*old(state), *final(state)),
        final(state).spec_proc_ids() == spec_proc_touched(*old(state), id, now),
        !old(state).spec_procs().contains_key(id) ==> {
            &&& r matches Content::IoError(IoErrorReply::InvalidProcId(i)) && i == id
            &&& final(state).spec_procs() == old(state).spec_procs()
        },
        old(state).spec_procs().contains_key(id) && !old(
            state,
        ).spec_procs()[id].spec_supports_stdout() ==> {
            &&& r matches Content::IoError(IoErrorReply::BrokenPipe)
            &&& final(state).spec_procs() == old(state).spec_procs()
        },
        old(state).spec_procs().contains_key(id) && old(
            state,
        ).spec_procs()[id].spec_supports_stdout() ==> {
            &&& r matches Content::StdoutContents { id: i, output } && i == id && output@ == old(
                state,
            ).spec_procs()[id].spec_stdout()
            &&& final(state).spec_procs().contains_key(id)
            &&& final(state).spec_procs().remove(id) == old(state).spec_procs().remove(id)
            &&& spec_stdout_taken(old(state).spec_procs()[id], final(state).spec_procs()[id])
        },
{
    state.touch_proc_id(id, now);
    match state.remove_proc(id) {
        None => Content::IoError(IoErrorReply::InvalidProcId(id)),
        Some(mut p) => {
            let out = p.read_stdout();
            state.replace_proc(id, p);
            assert(state.spec_procs().remove(id) =~= old(state).spec_procs().remove(id));
            match out {
                Some(output) => Content::StdoutContents { id, output },
                None => {
                    assert(state.spec_procs() =~= old(state).spec_procs());
                    Content::IoError(IoErrorReply::BrokenPipe)
                },
            }
        },
    }
}

/// Replies with all stderr gathered from the process with `id` since it was
/// last asked for, after touching the id; the output is then no longer kept
pub fn do_get_stderr(state: &mut ServerState, id: u32, now: u64) -> (r: Content)
    ensures
        spec_same_but_procs(*old(state), *final(state)),
        final(state).spec_proc_ids() == spec_proc_touched(*old(state), id, now),
        !old(state).spec_procs().contains_key(id) ==> {
            &&& r matches Content::IoError(IoErrorReply::InvalidProcId(i)) && i == id
            &&& final(state).spec_procs() == old(state).spec_procs()
        },
        old(state).spec_procs().contains_key(id) && !old(
            state,
        ).spec_procs()[id].spec_supports_stderr() ==> {
            &&& r matches Content::IoError(IoErrorReply::BrokenPipe)
            &&& final(state).spec_procs() == old(state).spec_procs()
        },
        old(state).spec_procs().contains_key(id) && old(
            state,
        ).spec_procs()[id].spec_supports_stderr() ==> {
            &&& r matches Content::StderrContents { id: i, output } && i == id && output@ == old(
                state,
            ).spec_procs()[id].spec_stderr()
            &&& final(state).spec_procs().contains_key(id)
            &&& final(state).spec_procs().remove(id) == old(state).spec_procs().remove(id)
            &&& spec_stderr_taken(old(state).spec_procs()[id], final(state).spec_procs()[id])
        },
{
    state.touch_proc_id(id, now);
    match state.remove_proc(id) {
        None => Content::IoError(IoErrorReply::InvalidProcId(id)),
        Some(mut p) => {
            let out = p.read_stderr();
            state.replace_proc(id, p);
            assert(state.spec_procs().remove(id) =~= old(state).spec_procs().remove(id));
            match out {
                Some(output) => Content::StderrContents { id, output },
                None => {
                    assert(state.spec_procs() =~= old(state).spec_procs());
                    Content::IoError(IoErrorReply::BrokenPipe)
                },
            }
        },
    }
}

/// Replies with whether the process with `id` is still running and, once it
/// has ended, its exit code; an ended process is then kept only for the
/// server's shorter time to live of ended processes
pub fn do_get_proc_status(state: &mut ServerState, id: u32, now: u64) -> (r: Content)
    ensures
        spec_same_but_procs(*old(state), *final(state)),
        final(state).spec_procs() == old(state).spec_procs(),
        !old(state).spec_procs().contains_key(id) ==> {
            &&& r matches Content::IoError(IoErrorReply::InvalidProcId(i)) && i == id
            &&& final(state).spec_proc_ids() == spec_proc_touched(*old(state), id, now)
        },
        old(state).spec_procs().contains_key(id) && old(
            state,
        ).spec_procs()[id].spec_exit_status() is None ==> {
            &&& r matches Content::ProcStatus { id: i, is_alive, exit_code } && i == id && is_alive
                && exit_code is None
            &&& final(state).spec_proc_ids() == spec_proc_touched(*old(state), id, now)
        },
        old(state).spec_procs().contains_key(id) ==> (old(
            state,
        ).spec_procs()[id].spec_exit_status() matches Some(status) ==> {
            &&& r matches Content::ProcStatus { id: i, is_alive, exit_code } && i == id && !is_alive
                && exit_code == status.exit_code
            &&& final(state).spec_proc_ids() == old(state).spec_proc_ids().insert(
                id,
                TtlEntry { last_touched: now, ttl: old(state).spec_dead_proc_ttl() },
            )
        }),
{
    state.touch_proc_id(id, now);
    let status = match state.get_proc(id) {
        None => {
            return Content::IoError(IoErrorReply::InvalidProcId(id));
        },
        Some(p) => p.exit_status(),
    };
    match status {
        Some(s) => {
            let ttl = state.dead_proc_ttl();
            state.touch_proc_id_with_ttl(id, ttl, now);
            assert(state.spec_proc_ids() =~= old(state).spec_proc_ids().insert(
                id,
                TtlEntry { last_touched: now, ttl },
            ));
            Content::ProcStatus { id, is_alive: false, exit_code: s.exit_code }
        },
        None => Content::ProcStatus { id, is_alive: true, exit_code: None },
    }
}

/// Kills the process with `id`, first step: touches the id and takes the
/// process out; replies at once when there is no such process, otherwise
/// gives the process taken out, to be killed
pub fn do_kill_proc(state: &mut ServerState, id: u32, now: u64) -> (r: Step<LocalProc>)
    ensures
        spec_same_but_procs(*old(state), *final(state)),
        final(state).spec_proc_ids() == spec_proc_touched(*old(state), id, now),
        final(state).spec_procs() == old(state).spec_procs().remove(id),
        !old(state).spec_procs().contains_key(id) ==> (r matches Step::Reply(
            Content::IoError(IoErrorReply::InvalidProcId(i)),
        ) && i == id),
        old(state).spec_procs().contains_key(id) ==> (r matches Step::Proceed(p) && p == old(
            state,
        ).spec_procs()[id]),
{
    state.touch_proc_id(id, now);
    match state.remove_proc(id) {
        None => Step::Reply(Content::IoError(IoErrorReply::InvalidProcId(id))),
        Some(p) => Step::Proceed(p),
    }
}

/// Kills the process with `id`, second step: once it was killed and waited
/// on, its id is no longer tracked and the reply gives its exit code;
/// otherwise the error is passed on
pub fn finish_kill_proc(state: &mut ServerState, id: u32, outcome: Result<Option<i32>, std::io::Error>) -> (r:
    Content)
    ensures
        spec_same_but_procs(*old(state), *final(state)),
        final(state).spec_procs() == old(state).spec_procs(),
        outcome matches Ok(code) ==> {
            &&& r matches Content::ProcStatus { id: i, is_alive, exit_code } && i == id && !is_alive
                && exit_code == code
            &&& final(state).spec_proc_ids() == old(state).spec_proc_ids().remove(id)
        },
        outcome matches Err(e) ==> {
            &&& r matches Content::IoError(IoErrorReply::Io(x)) && x == e
            &&& final(state).spec_proc_ids() == old(state).spec_proc_ids()
        },
{
    match outcome {
        Ok(code) => {
            state.remove_proc_id(id);
            Content::ProcStatus { id, is_alive: false, exit_code: code }
        },
        Err(e) => Content::IoError(IoErrorReply::Io(e)),
    }
}

} // verus!
