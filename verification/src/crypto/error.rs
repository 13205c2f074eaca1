use vstd::prelude::*;

verus! {

/// A failure inside encryption or decryption, with the text of what failed
#[derive(Debug)]
pub enum InternalError {
    /// Internal Error related to encryption occurred
    Encrypt(String),
    /// Internal Error related to decryption occurred
    Decrypt(String),
}

impl InternalError {
    /// The message that reports the failure
    pub fn message(&self) -> (s: String)
        ensures
            match self {
                InternalError::Encrypt(t) => s@ == "Internal encrypt error: "@ + t@,
                InternalError::Decrypt(t) => s@ == "Internal decrypt error: "@ + t@,
            },
    {
        match self {
            InternalError::Encrypt(t) => "Internal encrypt error: ".to_owned().concat(t.as_str()),
            InternalError::Decrypt(t) => "Internal decrypt error: ".to_owned().concat(t.as_str()),
        }
    }
}

} // verus!
