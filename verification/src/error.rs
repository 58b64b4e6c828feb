//! The errors a request can end in.

use vstd::prelude::*;

verus! {

/// Spec shape of a client error: the view of [`ClientError`].
pub enum ClientErr {
    Validation(Seq<char>),
    Parse(Seq<char>),
    Network(Seq<char>),
    Decode(Seq<char>),
    Process(Seq<char>),
}

/// Everything that can go wrong while a request is built, sent or read back.
/// Each variant carries its descriptive message.
#[derive(Debug, PartialEq, Eq)]
pub enum ClientError {
    /// A particle state or pose with the wrong number of components.
    Validation(String),
    /// Malformed JSON among the textual inputs.
    Parse(String),
    /// A transport-level failure on the remote path.
    Network(String),
    /// A malformed response body from the remote service.
    Decode(String),
    /// A non-zero exit from the local executable, carrying its stderr text.
    Process(String),
}

impl View for ClientError {
    type V = ClientErr;

    open spec fn view(&self) -> ClientErr {
        match self {
            ClientError::Validation(m) => ClientErr::Validation(m@),
            ClientError::Parse(m) => ClientErr::Parse(m@),
            ClientError::Network(m) => ClientErr::Network(m@),
            ClientError::Decode(m) => ClientErr::Decode(m@),
            ClientError::Process(m) => ClientErr::Process(m@),
        }
    }
}

/// The message text inside an error, whichever variant holds it.
pub open spec fn message_of(e: ClientErr) -> Seq<char> {
    match e {
        ClientErr::Validation(m) => m,
        ClientErr::Parse(m) => m,
        ClientErr::Network(m) => m,
        ClientErr::Decode(m) => m,
        ClientErr::Process(m) => m,
    }
}

impl ClientError {
    /// The descriptive message carried by the error.
    pub fn message(&self) -> (r: &String)
        ensures
            r@ == message_of(self@),
    {
        match self {
            ClientError::Validation(m) => m,
            ClientError::Parse(m) => m,
            ClientError::Network(m) => m,
            ClientError::Decode(m) => m,
            ClientError::Process(m) => m,
        }
    }
}

} // verus!
