use crate::server::action::{Capability, Content};
use vstd::prelude::*;

verus! {

/// The deepest that sequences and batches may nest by default
pub const DEFAULT_MAX_DEPTH: u8 = 5;

/// A request from a client
#[derive(Debug)]
pub enum Request {
    Heartbeat,
    Version,
    Capabilities,
    OpenFile { path: String, create_if_missing: bool, write_access: bool, read_access: bool },
    CloseFile { id: u32, sig: u32 },
    RenameUnopenedFile { from: String, to: String },
    RenameFile { id: u32, sig: u32, to: String },
    RemoveUnopenedFile { path: String },
    RemoveFile { id: u32, sig: u32 },
    ReadFile { id: u32, sig: u32 },
    WriteFile { id: u32, sig: u32, contents: Vec<u8> },
    CreateDir { path: String, include_components: bool },
    RenameDir { from: String, to: String },
    RemoveDir { path: String, non_empty: bool },
    ListDirContents { path: String },
    ExecProc {
        command: String,
        args: Vec<String>,
        stdin: bool,
        stdout: bool,
        stderr: bool,
        current_dir: Option<String>,
    },
    WriteProcStdin { id: u32, input: Vec<u8> },
    ReadProcStdout { id: u32 },
    ReadProcStderr { id: u32 },
    ReadProcStatus { id: u32 },
    KillProc { id: u32 },
    InternalDebug { input: Vec<u8> },
    /// Requests carried out one after the other, stopping at the first
    /// failure
    Sequence { operations: Vec<Request> },
    /// Requests carried out side by side
    Batch { operations: Vec<Request> },
    Custom { data: Vec<u8> },
    Forward,
}

/// How a request is carried out
#[derive(Debug)]
pub enum Route {
    /// The reply is known at once
    Reply(Content),
    /// The operations of a sequence, each to be routed with `depth` in turn
    /// (see `SequenceRun`)
    Sequence { operations: Vec<Request>, depth: u8 },
    /// The operations of a batch, each to be routed with `depth`, their
    /// replies given in the order of the operations (see `batch_reply`)
    Batch { operations: Vec<Request>, depth: u8 },
    /// The request is carried out by its handler
    Handle(Request),
}

/// The text of the reply to requests nested deeper than allowed
pub open spec fn spec_depth_text() -> Seq<char> {
    "Reached maximum nested depth"@
}

/// The text of the reply to an operation of a sequence that comes after a
/// failure
pub open spec fn spec_abort_text() -> Seq<char> {
    "Abort"@
}

/// What a server can do
pub open spec fn spec_capabilities() -> Seq<Capability> {
    seq![Capability::Exec, Capability::File, Capability::Forward]
}

/// What the server can do
pub fn capabilities() -> (c: Vec<Capability>)
    ensures
        c@ == spec_capabilities(),
{
    let mut c: Vec<Capability> = Vec::new();
    c.push(Capability::Exec);
    c.push(Capability::File);
    c.push(Capability::Forward);
    assert(c@ =~= spec_capabilities());
    c
}

/// Decides how `request` is carried out when `max_depth` more levels of
/// nesting are allowed: with no level left every request is refused;
/// heartbeats and questions of capabilities are answered at once; requests
/// to forward are not answered; sequences and batches go one level down;
/// every other request goes to its handler
pub fn route(request: Request, max_depth: u8) -> (r: Route)
    ensures
        max_depth == 0 ==> (r matches Route::Reply(Content::Error(m)) && m@ == spec_depth_text()),
        max_depth > 0 ==> match request {
            Request::Heartbeat => r matches Route::Reply(Content::Heartbeat),
            Request::Capabilities => r matches Route::Reply(Content::Capabilities { capabilities })
                && capabilities@ == spec_capabilities(),
            Request::Forward => r matches Route::Reply(Content::Ignore),
            Request::Sequence { operations } => r matches Route::Sequence {
                operations: ops,
                depth,
            } && ops@ == operations@ && depth == max_depth - 1,
            Request::Batch { operations } => r matches Route::Batch { operations: ops, depth }
                && ops@ == operations@ && depth == max_depth - 1,
            _ => r == Route::Handle(request),
        },
{
    if max_depth == 0 {
        return Route::Reply(Content::Error("Reached maximum nested depth".to_owned()));
    }
    match request {
        Request::Heartbeat => Route::Reply(Content::Heartbeat),
        Request::Capabilities => Route::Reply(Content::Capabilities { capabilities: capabilities() }),
        Request::Forward => Route::Reply(Content::Ignore),
        Request::Sequence { operations } => Route::Sequence { operations, depth: max_depth - 1 },
        Request::Batch { operations } => Route::Batch { operations, depth: max_depth - 1 },
        other => Route::Handle(other),
    }
}

/// Whether a reply reports a failure that stops a sequence
pub open spec fn spec_is_failure(c: Content) -> bool {
    c is Error
}

/// Once a reply is a failure, every later reply is one too
pub open spec fn spec_failures_stick(results: Seq<Content>) -> bool {
    forall|i: int, j: int|
        0 <= i < j < results.len() && spec_is_failure(#[trigger] results[i]) ==> spec_is_failure(
            #[trigger] results[j],
        )
}

/// The replies gathered while the operations of a sequence are carried out
/// in order, one reply for each operation; once a reply is a failure, every
/// later operation is aborted
pub struct SequenceRun {
    results: Vec<Content>,
    total: usize,
}

impl SequenceRun {
    #[verifier::type_invariant]
    spec fn failures_stick(self) -> bool {
        &&& spec_failures_stick(self.results@)
        &&& self.results@.len() <= self.total
    }

    /// How many operations the sequence has
    pub closed spec fn spec_total(self) -> nat {
        self.total as nat
    }

    /// The replies so far, in order
    pub closed spec fn spec_results(self) -> Seq<Content> {
        self.results@
    }

    /// Whether the next operation is carried out: it is unless the last
    /// reply is a failure
    pub open spec fn spec_next_runs(self) -> bool {
        self.spec_results().len() == 0 || !spec_is_failure(self.spec_results().last())
    }

    /// A sequence of `total` operations, none carried out yet
    pub fn new(total: usize) -> (s: Self)
        ensures
            s.spec_results() == Seq::<Content>::empty(),
            s.spec_total() == total,
    {
        SequenceRun { results: Vec::new(), total }
    }

    /// Whether every operation has its reply
    pub fn is_done(&self) -> (b: bool)
        ensures
            b == (self.spec_results().len() >= self.spec_total()),
    {
        self.results.len() >= self.total
    }

    /// Whether the next operation is to be carried out
    pub fn next_runs(&self) -> (b: bool)
        ensures
            b == self.spec_next_runs(),
    {
        if self.results.len() == 0 {
            true
        } else {
            let last = &self.results[self.results.len() - 1];
            !matches!(last, Content::Error(_))
        }
    }

    /// Records the reply to the operation that was carried out
    pub fn record(&mut self, reply: Content)
        requires
            old(self).spec_next_runs(),
            old(self).spec_results().len() < old(self).spec_total(),
        ensures
            final(self).spec_results() == old(self).spec_results().push(reply),
            final(self).spec_total() == old(self).spec_total(),
            final(self).spec_next_runs() <==> !(reply is Error),
    {
        proof {
            use_type_invariant(&*self);
        }
        let mut results: Vec<Content> = Vec::new();
        std::mem::swap(&mut results, &mut self.results);
        results.push(reply);
        proof {
            assert forall|i: int, j: int|
                0 <= i < j < results@.len() && spec_is_failure(#[trigger] results@[i]) implies spec_is_failure(
                #[trigger] results@[j],
            ) by {
                if j < results@.len() - 1 {
                    assert(results@[i] == old(self).results@[i]);
                    assert(results@[j] == old(self).results@[j]);
                } else {
                    let n = old(self).results@.len() - 1;
                    assert(results@[i] == old(self).results@[i]);
                    if i < n {
                        assert(spec_is_failure(old(self).results@[n]));
                    }
                }
            }
        }
        self.results = results;
    }

    /// Records that the next operation was not carried out, as a failure
    /// came before it; later operations are then aborted too
    pub fn abort(&mut self)
        requires
            !old(self).spec_next_runs(),
            old(self).spec_results().len() < old(self).spec_total(),
        ensures
            final(self).spec_total() == old(self).spec_total(),
            final(self).spec_results().len() == old(self).spec_results().len() + 1,
            final(self).spec_results().drop_last() == old(self).spec_results(),
            final(self).spec_results().last() matches Content::Error(m) && m@ == spec_abort_text(),
            !final(self).spec_next_runs(),
    {
        proof {
            use_type_invariant(&*self);
        }
        let mut results: Vec<Content> = Vec::new();
        std::mem::swap(&mut results, &mut self.results);
        results.push(Content::Error("Abort".to_owned()));
        proof {
            assert forall|i: int, j: int|
                0 <= i < j < results@.len() && spec_is_failure(#[trigger] results@[i]) implies spec_is_failure(
                #[trigger] results@[j],
            ) by {
                if j < results@.len() - 1 {
                    assert(results@[i] == old(self).results@[i]);
                    assert(results@[j] == old(self).results@[j]);
                }
            }
        }
        self.results = results;
        assert(self.results@.drop_last() =~= old(self).results@);
    }

    /// The reply to the whole sequence: the replies to its operations, in
    /// order
    pub fn finish(self) -> (r: Content)
        requires
            self.spec_results().len() == self.spec_total(),
        ensures
            r matches Content::Sequence { results } && results@ == self.spec_results()
                && results@.len() == self.spec_total(),
            spec_failures_stick(self.spec_results()),
    {
        proof {
            use_type_invariant(&self);
        }
        Content::Sequence { results: self.results }
    }
}

/// A sequence goes on to its next operation exactly when no reply has come
/// yet or the last reply is not an error reply (`Content::Error`): any other
/// reply, an I/O error reply among them, lets the next operation run
pub proof fn lemma_sequence_stops_only_after_error(s: SequenceRun)
    ensures
        s.spec_next_runs() <==> (s.spec_results().len() == 0 || !(s.spec_results().last() is Error)),
{
}

/// The reply to a batch, given the replies to its operations in the order
/// of the operations
pub fn batch_reply(results: Vec<Content>) -> (r: Content)
    ensures
        r matches Content::Batch { results: rs } && rs@ == results@,
{
    Content::Batch { results }
}

/// What came of waiting for data from a client
#[derive(Debug, Clone, Copy, PartialEq, Eq, Structural)]
pub enum RecvOutcome {
    /// Nothing complete arrived yet
    Nothing,
    /// A message arrived (whether or not it could be read and carried out)
    Data,
    /// The data that arrived could not be put together into a message
    ProcessingFailed,
    /// The connection failed
    IoFailed,
}

/// Whether the server goes on receiving after `outcome`: it stops only when
/// the connection failed
pub fn keep_receiving(outcome: RecvOutcome) -> (b: bool)
    ensures
        b <==> !(outcome is IoFailed),
{
    !matches!(outcome, RecvOutcome::IoFailed)
}

} // verus!
