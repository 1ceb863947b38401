use vstd::prelude::*;

verus! {

/// The failures that the codec, the command grammar, the registry and the
/// dispatcher report. None of them is fatal to the process.
#[derive(Debug, Clone, Copy, PartialEq, Eq, Structural)]
pub enum RelayError {
    /// A byte or token that names no operation or object.
    InvalidEncoding,
    /// The first token of a command names no operation.
    InvalidOperation,
    /// The second token of a command names no object.
    InvalidObject,
    /// A command with fewer than two tokens.
    MissingArguments,
    /// The payload source of a command could not be read.
    PayloadReadFailure,
    /// A payload longer than a 16-bit length prefix can describe.
    PayloadTooLarge,
    /// No connection has registered itself yet.
    NoActiveConnection,
    /// Bytes that are not a well-formed frame.
    ProtocolDecodeError,
}

impl RelayError {
    /// A short human-readable description of the failure.
    pub fn describe(&self) -> (r: &'static str)
        ensures
            r@.len() > 0,
    {
        match self {
            RelayError::InvalidEncoding => {
                proof {
                    reveal_strlit("invalid encoding");
                }
                "invalid encoding"
            },
            RelayError::InvalidOperation => {
                proof {
                    reveal_strlit("operation is not valid");
                }
                "operation is not valid"
            },
            RelayError::InvalidObject => {
                proof {
                    reveal_strlit("object is not valid");
                }
                "object is not valid"
            },
            RelayError::MissingArguments => {
                proof {
                    reveal_strlit("command needs an operation and an object");
                }
                "command needs an operation and an object"
            },
            RelayError::PayloadReadFailure => {
                proof {
                    reveal_strlit("payload could not be read");
                }
                "payload could not be read"
            },
            RelayError::PayloadTooLarge => {
                proof {
                    reveal_strlit("payload is longer than 65535 bytes");
                }
                "payload is longer than 65535 bytes"
            },
            RelayError::NoActiveConnection => {
                proof {
                    reveal_strlit("no active connection");
                }
                "no active connection"
            },
            RelayError::ProtocolDecodeError => {
                proof {
                    reveal_strlit("malformed frame");
                }
                "malformed frame"
            },
        }
    }
}

} // verus!
