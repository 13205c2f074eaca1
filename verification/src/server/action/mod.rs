pub mod fs;
pub mod proc;
pub mod route;

use crate::server::dir::LocalDirEntry;
use crate::server::fs::FsError;
use vstd::prelude::*;

verus! {

/// Failures of carrying out a request
#[derive(Debug)]
pub enum ActionError {
    /// The reply could not be encoded
    MsgError(String),
    /// The reply could not be sent
    RespondFailed,
    /// The message received was not a request
    UnexpectedContent,
}

/// Why a request could not be carried out
#[derive(Debug)]
pub enum IoErrorReply {
    /// No file is open with this id
    InvalidFileId(u32),
    /// No process is known with this id
    InvalidProcId(u32),
    /// The stream asked for is not piped
    BrokenPipe,
    /// The path to rename as a file is not a file
    NotAFile,
    /// The path to rename as a directory is not a directory
    NotADirectory,
    /// The file system manager refused the request
    Fs(FsError),
    /// The file system or the process reported an error
    Io(std::io::Error),
}

/// The reply to a request on files, directories or processes
#[derive(Debug)]
pub enum Content {
    FileOpened { id: u32, sig: u32, path: String, read: bool, write: bool },
    FileClosed { id: u32 },
    UnopenedFileRenamed { from: String, to: String },
    FileRenamed { id: u32, sig: u32 },
    UnopenedFileRemoved { path: String },
    FileRemoved { id: u32, sig: u32 },
    FileContents { id: u32, contents: Vec<u8> },
    FileWritten { id: u32, sig: u32 },
    /// The signature given is not the file's current one, which this holds
    FileSigChanged { id: u32, sig: u32 },
    DirCreated { path: String },
    DirRenamed { from: String, to: String },
    DirRemoved { path: String },
    DirContentsList { path: String, entries: Vec<LocalDirEntry> },
    ProcStarted { id: u32 },
    StdinWritten { id: u32 },
    StdoutContents { id: u32, output: Vec<u8> },
    StderrContents { id: u32, output: Vec<u8> },
    ProcStatus { id: u32, is_alive: bool, exit_code: Option<i32> },
    IoError(IoErrorReply),
    Heartbeat,
    Version { version: String },
    /// What the server reports of its state for debugging, with the input
    /// of the request
    InternalDebug { input: Vec<u8>, output: Vec<u8> },
    Capabilities { capabilities: Vec<Capability> },
    /// The replies to the requests of a sequence, in order
    Sequence { results: Vec<Content> },
    /// The replies to the requests of a batch, in order
    Batch { results: Vec<Content> },
    /// The request could not be carried out, for the reason given
    Error(String),
    /// The reply of the server's own handler of custom requests
    Custom { data: Vec<u8> },
    /// No reply is sent
    Ignore,
}

/// What a server can do
#[derive(Debug, Clone, Copy, PartialEq, Eq, Structural)]
pub enum Capability {
    Custom,
    Exec,
    File,
    Forward,
}

/// What a handler decided: to reply at once, or to go on with the outside
/// work that it describes, after which a second step gives the reply
#[derive(Debug)]
pub enum Step<T> {
    Reply(Content),
    Proceed(T),
}

} // verus!
