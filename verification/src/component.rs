//! What the components of a node share to talk to each other.

use vstd::prelude::*;
use vstd::string::StringExecFns;

verus! {

/// The number of requests that a local channel holds unless told otherwise.
pub const DEFAULT_CHANNEL_BUFFER_SIZE: usize = 32;

/// Why a component server could not serve a request.
#[derive(Clone, Debug, PartialEq, Eq)]
pub enum ServerError {
    /// The request of a client could not be read; the text says why.
    RequestDeserializationFailure(String),
}

impl ServerError {
    /// The text that a message of this error opens with.
    pub open spec fn prefix() -> Seq<char> {
        "Could not deserialize client request: "@
    }

    /// The reason that the error carries.
    pub open spec fn detail(&self) -> Seq<char> {
        match self {
            ServerError::RequestDeserializationFailure(detail) => detail@,
        }
    }

    /// The error as a line of text: the prefix, then the reason.
    pub fn message(&self) -> (text: String)
        ensures
            text@ == Self::prefix() + self.detail(),
    {
        match self {
            ServerError::RequestDeserializationFailure(detail) => {
                String::from_str("Could not deserialize client request: ").concat(detail.as_str())
            },
        }
    }
}

/// How a component is reached within the process.
#[derive(Clone, Debug, PartialEq, Eq)]
pub struct LocalComponentCommunicationConfig {
    pub channel_buffer_size: usize,
}

impl Default for LocalComponentCommunicationConfig {
    fn default() -> (config: LocalComponentCommunicationConfig)
        ensures
            config.channel_buffer_size == DEFAULT_CHANNEL_BUFFER_SIZE,
    {
        LocalComponentCommunicationConfig { channel_buffer_size: DEFAULT_CHANNEL_BUFFER_SIZE }
    }
}

} // verus!
