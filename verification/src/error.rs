//! The failures of the client, by kind.

use vstd::prelude::*;

verus! {

/// What is wrong with the settings that a client is made from.
#[derive(Clone, Copy, Debug, PartialEq, Eq, Structural)]
pub enum ConfigurationFault {
    /// The admin token cannot stand in a header.
    InvalidToken,
    /// The endpoint is no URL, with or without `http://` before it, or no
    /// path can be resolved against it.
    InvalidEndpoint,
    /// A URL would grow beyond what 32-bit positions within it can
    /// address.
    UrlTooLong,
}

/// The call that a failure came from, with what the call was about.
#[derive(Debug, PartialEq, Eq)]
pub enum Operation {
    /// Listing the sandboxes that carry this tag.
    ListSandboxes { tag: String },
    /// Creating a sandbox that carries these tags.
    CreateSandbox { tags: Vec<String> },
}

/// The characters of a sequence of texts, one for one.
pub open spec fn texts(items: Seq<String>) -> Seq<Seq<char>> {
    items.map_values(|s: String| s@)
}

/// A call of the client as a mathematical value.
pub enum Call {
    ListSandboxes { tag: Seq<char> },
    CreateSandbox { tags: Seq<Seq<char>> },
}

impl View for Operation {
    type V = Call;

    open spec fn view(&self) -> Call {
        match *self {
            Operation::ListSandboxes { tag } => Call::ListSandboxes { tag: tag@ },
            Operation::CreateSandbox { tags } => Call::CreateSandbox { tags: texts(tags@) },
        }
    }
}

/// What is wrong with the body of a successful reply.
#[derive(Clone, Copy, Debug, PartialEq, Eq, Structural)]
pub enum DecodeFault {
    /// The body is no JSON document.
    InvalidJson,
    /// The document is no object, or an object without the expected member.
    MissingField,
    /// The expected member is of another JSON type than expected.
    UnexpectedType,
}

/// A failure of the client. A failure of a call says which call it was and
/// what the call was about.
#[derive(Debug, PartialEq, Eq)]
pub enum ClientError {
    /// The client could not be made, or a URL could not be formed.
    Configuration(ConfigurationFault),
    /// The request could not be sent, or no reply was received.
    Transport { operation: Operation, detail: String },
    /// The service replied with a status that is no success. The body is
    /// held byte for byte as it came.
    Remote { operation: Operation, status: u16, body: Vec<u8> },
    /// The service replied with a success whose body is not as expected.
    Decode { operation: Operation, fault: DecodeFault },
}

/// A failure of the client as a mathematical value.
pub enum Failure {
    Configuration(ConfigurationFault),
    Transport { operation: Call, detail: Seq<char> },
    Remote { operation: Call, status: u16, body: Seq<u8> },
    Decode { operation: Call, fault: DecodeFault },
}

impl View for ClientError {
    type V = Failure;

    open spec fn view(&self) -> Failure {
        match *self {
            ClientError::Configuration(fault) => Failure::Configuration(fault),
            ClientError::Transport { operation, detail } => Failure::Transport {
                operation: operation@,
                detail: detail@,
            },
            ClientError::Remote { operation, status, body } => Failure::Remote {
                operation: operation@,
                status,
                body: body@,
            },
            ClientError::Decode { operation, fault } => Failure::Decode {
                operation: operation@,
                fault,
            },
        }
    }
}

} // verus!
