use vstd::prelude::*;

verus! {

/// How a process ended
#[derive(Copy, Clone, Debug, PartialEq, Eq)]
pub struct ExitStatus {
    pub id: u32,
    pub is_success: bool,
    pub exit_code: Option<i32>,
}

/// What the server knows of a process it started: which of its standard
/// streams are piped, the output gathered and not yet read, and how it
/// ended once it has
#[derive(Clone, Debug)]
pub struct LocalProc {
    id: u32,
    supports_stdin: bool,
    supports_stdout: bool,
    supports_stderr: bool,
    /// Internal buffer of all stdout that has been acquired
    stdout_buf: Vec<u8>,
    /// Internal buffer of all stderr that has been acquired
    stderr_buf: Vec<u8>,
    exit_status: Option<ExitStatus>,
}

impl LocalProc {
    pub closed spec fn spec_id(self) -> u32 {
        self.id
    }

    pub closed spec fn spec_supports_stdin(self) -> bool {
        self.supports_stdin
    }

    pub closed spec fn spec_supports_stdout(self) -> bool {
        self.supports_stdout
    }

    pub closed spec fn spec_supports_stderr(self) -> bool {
        self.supports_stderr
    }

    /// Output gathered from stdout and not yet read
    pub closed spec fn spec_stdout(self) -> Seq<u8> {
        self.stdout_buf@
    }

    /// Output gathered from stderr and not yet read
    pub closed spec fn spec_stderr(self) -> Seq<u8> {
        self.stderr_buf@
    }

    pub closed spec fn spec_exit_status(self) -> Option<ExitStatus> {
        self.exit_status
    }

    /// A process with the given id, whose streams are piped as given, with
    /// no output gathered and still running
    pub fn new(id: u32, supports_stdin: bool, supports_stdout: bool, supports_stderr: bool) -> (p:
        Self)
        ensures
            p.spec_id() == id,
            p.spec_supports_stdin() == supports_stdin,
            p.spec_supports_stdout() == supports_stdout,
            p.spec_supports_stderr() == supports_stderr,
            p.spec_stdout() == Seq::<u8>::empty(),
            p.spec_stderr() == Seq::<u8>::empty(),
            p.spec_exit_status() is None,
    {
        LocalProc {
            id,
            supports_stdin,
            supports_stdout,
            supports_stderr,
            stdout_buf: Vec::new(),
            stderr_buf: Vec::new(),
            exit_status: None,
        }
    }

    pub fn id(&self) -> (id: u32)
        ensures
            id == self.spec_id(),
    {
        self.id
    }

    /// Whether stdin is piped, so that it can be written to
    pub fn supports_stdin(&self) -> (b: bool)
        ensures
            b == self.spec_supports_stdin(),
    {
        self.supports_stdin
    }

    /// How the process ended, if it has
    pub fn exit_status(&self) -> (s: Option<ExitStatus>)
        ensures
            s == self.spec_exit_status(),
    {
        self.exit_status
    }

    /// Adds output read from stdout to what is gathered
    pub fn record_stdout(&mut self, data: &[u8])
        ensures
            final(self).spec_stdout() == old(self).spec_stdout() + data@,
            final(self).spec_stderr() == old(self).spec_stderr(),
            final(self).spec_id() == old(self).spec_id(),
            final(self).spec_supports_stdin() == old(self).spec_supports_stdin(),
            final(self).spec_supports_stdout() == old(self).spec_supports_stdout(),
            final(self).spec_supports_stderr() == old(self).spec_supports_stderr(),
            final(self).spec_exit_status() == old(self).spec_exit_status(),
    {
        self.stdout_buf.extend_from_slice(data);
    }

    /// Adds output read from stderr to what is gathered
    pub fn record_stderr(&mut self, data: &[u8])
        ensures
            final(self).spec_stderr() == old(self).spec_stderr() + data@,
            final(self).spec_stdout() == old(self).spec_stdout(),
            final(self).spec_id() == old(self).spec_id(),
            final(self).spec_supports_stdin() == old(self).spec_supports_stdin(),
            final(self).spec_supports_stdout() == old(self).spec_supports_stdout(),
            final(self).spec_supports_stderr() == old(self).spec_supports_stderr(),
            final(self).spec_exit_status() == old(self).spec_exit_status(),
    {
        self.stderr_buf.extend_from_slice(data);
    }

    /// Records how the process ended: whether waiting on it succeeded, and
    /// its exit code if it had one
    pub fn record_exit(&mut self, is_success: bool, exit_code: Option<i32>)
        ensures
            final(self).spec_exit_status() == Some(
                ExitStatus { id: old(self).spec_id(), is_success, exit_code },
            ),
            final(self).spec_stdout() == old(self).spec_stdout(),
            final(self).spec_stderr() == old(self).spec_stderr(),
            final(self).spec_id() == old(self).spec_id(),
            final(self).spec_supports_stdin() == old(self).spec_supports_stdin(),
            final(self).spec_supports_stdout() == old(self).spec_supports_stdout(),
            final(self).spec_supports_stderr() == old(self).spec_supports_stderr(),
    {
        self.exit_status = Some(ExitStatus { id: self.id, is_success, exit_code });
    }

    /// Takes all stdout gathered so far; `None` if stdout is not piped
    pub fn read_stdout(&mut self) -> (r: Option<Vec<u8>>)
        ensures
            !old(self).spec_supports_stdout() ==> r is None && *final(self) == *old(self),
            old(self).spec_supports_stdout() ==> {
                &&& r matches Some(v) && v@ == old(self).spec_stdout()
                &&& final(self).spec_stdout() == Seq::<u8>::empty()
            },
            final(self).spec_stderr() == old(self).spec_stderr(),
            final(self).spec_id() == old(self).spec_id(),
            final(self).spec_supports_stdin() == old(self).spec_supports_stdin(),
            final(self).spec_supports_stdout() == old(self).spec_supports_stdout(),
            final(self).spec_supports_stderr() == old(self).spec_supports_stderr(),
            final(self).spec_exit_status() == old(self).spec_exit_status(),
    {
        if self.supports_stdout {
            let mut taken: Vec<u8> = Vec::new();
            std::mem::swap(&mut taken, &mut self.stdout_buf);
            Some(taken)
        } else {
            None
        }
    }

    /// Takes all stderr gathered so far; `None` if stderr is not piped
    pub fn read_stderr(&mut self) -> (r: Option<Vec<u8>>)
        ensures
            !old(self).spec_supports_stderr() ==> r is None && *final(self) == *old(self),
            old(self).spec_supports_stderr() ==> {
                &&& r matches Some(v) && v@ == old(self).spec_stderr()
                &&& final(self).spec_stderr() == Seq::<u8>::empty()
            },
            final(self).spec_stdout() == old(self).spec_stdout(),
            final(self).spec_id() == old(self).spec_id(),
            final(self).spec_supports_stdin() == old(self).spec_supports_stdin(),
            final(self).spec_supports_stdout() == old(self).spec_supports_stdout(),
            final(self).spec_supports_stderr() == old(self).spec_supports_stderr(),
            final(self).spec_exit_status() == old(self).spec_exit_status(),
    {
        if self.supports_stderr {
            let mut taken: Vec<u8> = Vec::new();
            std::mem::swap(&mut taken, &mut self.stderr_buf);
            Some(taken)
        } else {
            None
        }
    }
}

/// Output is handed out once, in the order it was produced: once a read of
/// stdout has left `p1` with nothing gathered, two recordings of output (`p1`
/// to `p2` with `a`, `p2` to `p3` with `b`) and a read (`p3` to `p4`, giving
/// `read`) give exactly `a` followed by `b`, and leave nothing gathered.
pub proof fn lemma_stdout_read_back_once(
    p1: LocalProc,
    p2: LocalProc,
    p3: LocalProc,
    p4: LocalProc,
    a: Seq<u8>,
    b: Seq<u8>,
    read: Seq<u8>,
)
    requires
        p1.spec_stdout() == Seq::<u8>::empty(),
        p2.spec_stdout() == p1.spec_stdout() + a,
        p3.spec_stdout() == p2.spec_stdout() + b,
        read == p3.spec_stdout(),
        p4.spec_stdout() == Seq::<u8>::empty(),
    ensures
        read == a + b,
        p4.spec_stdout().len() == 0,
{
    assert(Seq::<u8>::empty() + a =~= a);
}

} // verus!
