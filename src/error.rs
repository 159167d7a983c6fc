use vstd::prelude::*;
use crate::kinds::Scope;

verus! {

/// Failures that this layer decides itself, before any request is made.
#[derive(Clone, Copy, Debug, PartialEq, Eq, Structural)]
pub enum ErrorKind {
    /// The client was not created with the scope that the endpoint needs.
    ScopeNotEnabled(Scope),
}

impl ErrorKind {
    pub open spec fn message_of(self) -> Seq<char> {
        match self {
            ErrorKind::ScopeNotEnabled(s) => "Scope not enabled: '"@ + s.wire() + "'"@,
        }
    }

    /// A human readable description, such as `Scope not enabled: 'identity'`.
    pub fn message(&self) -> (r: String)
        ensures
            r@ == self.message_of(),
    {
        match self {
            ErrorKind::ScopeNotEnabled(s) => {
                let mut m = String::from_str("Scope not enabled: '");
                m.append(s.as_str());
                m.append("'");
                m
            },
        }
    }
}

/// Failures of preparing a request or of reading what came back.
#[derive(Debug)]
pub enum ClientError {
    /// The body was not JSON, or did not have the shape of the expected answer.
    Decode,
    /// The access token holds a character that an HTTP header cannot carry.
    InvalidToken,
}

#[derive(Debug)]
pub enum Error {
    ApiError(ErrorKind),
    ClientError(ClientError),
}

pub type Result<T> = core::result::Result<T, Error>;

} // verus!
