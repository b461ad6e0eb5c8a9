use vstd::prelude::*;

verus! {

/// A field of the wire format whose codes form a closed set.
#[derive(Debug, Clone, Copy, PartialEq, Eq, Structural)]
pub enum WireField {
    /// The control tag in front of every frame.
    Tag,
    /// The message type of an envelope header.
    MessageType,
    /// The priority of an envelope header.
    Priority,
    /// The role of a node.
    EntityRole,
    /// The authentication protocol.
    AuthProtocol,
    /// The protocol version of the handshake.
    ProtocolVersion,
    /// The address family of an endpoint.
    AddressFamily,
    /// The flag set of an object-storage operation.
    OsdFlags,
    /// The ether type of a captured frame.
    EtherType,
}

/// Why a buffer could not be decoded, or a sink not be written.
#[derive(Debug, PartialEq, Eq)]
pub enum SerialError {
    /// A sink did not take the bytes handed to it; the text says what was being sent.
    IoError(String),
    /// The buffer ends before the structure does.
    Incomplete,
    /// An enumerated field holds a code that names no variant.
    InvalidEnumValue { field: WireField, code: u64 },
    /// A length-prefixed string is not valid UTF-8.
    InvalidText,
    /// A length-prefixed identifier is not a UUID.
    InvalidIdentifier,
}

impl SerialError {
    /// The failure of a sink, with the text that describes it.
    pub fn new(err: String) -> (e: SerialError)
        ensures
            e == SerialError::IoError(err),
    {
        SerialError::IoError(err)
    }
}

} // verus!
