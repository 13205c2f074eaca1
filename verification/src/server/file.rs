use vstd::prelude::*;
use vstd::std_specs::convert::FromSpecImpl;

verus! {

/// Failures of overwriting a file
#[derive(Debug)]
pub enum LocalFileWriteError {
    SigMismatch,
    IoError(LocalFileWriteIoError),
}

/// The I/O step at which overwriting a file failed
#[derive(Debug)]
pub enum LocalFileWriteIoError {
    SeekError(std::io::Error),
    SetLenError(std::io::Error),
    WriteAllError(std::io::Error),
    FlushError(std::io::Error),
}

impl From<LocalFileWriteIoError> for std::io::Error {
    /// The I/O error behind the failure
    fn from(e: LocalFileWriteIoError) -> Self {
        match e {
            LocalFileWriteIoError::SeekError(x) => x,
            LocalFileWriteIoError::SetLenError(x) => x,
            LocalFileWriteIoError::WriteAllError(x) => x,
            LocalFileWriteIoError::FlushError(x) => x,
        }
    }
}

impl FromSpecImpl<LocalFileWriteIoError> for std::io::Error {
    open spec fn obeys_from_spec() -> bool {
        true
    }

    open spec fn from_spec(e: LocalFileWriteIoError) -> Self {
        match e {
            LocalFileWriteIoError::SeekError(x) => x,
            LocalFileWriteIoError::SetLenError(x) => x,
            LocalFileWriteIoError::WriteAllError(x) => x,
            LocalFileWriteIoError::FlushError(x) => x,
        }
    }
}

/// Failures of reading a file
#[derive(Debug)]
pub enum LocalFileReadError {
    SigMismatch,
    IoError(LocalFileReadIoError),
}

/// The I/O step at which reading a file failed
#[derive(Debug)]
pub enum LocalFileReadIoError {
    SeekError(std::io::Error),
    ReadToEndError(std::io::Error),
}

impl From<LocalFileReadIoError> for std::io::Error {
    /// The I/O error behind the failure
    fn from(e: LocalFileReadIoError) -> Self {
        match e {
            LocalFileReadIoError::SeekError(x) => x,
            LocalFileReadIoError::ReadToEndError(x) => x,
        }
    }
}

impl FromSpecImpl<LocalFileReadIoError> for std::io::Error {
    open spec fn obeys_from_spec() -> bool {
        true
    }

    open spec fn from_spec(e: LocalFileReadIoError) -> Self {
        match e {
            LocalFileReadIoError::SeekError(x) => x,
            LocalFileReadIoError::ReadToEndError(x) => x,
        }
    }
}

} // verus!
