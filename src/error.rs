use vstd::prelude::*;

verus! {

/// The offending raw value of a call that the bridge refused on its own.
#[derive(Debug, Clone, PartialEq)]
pub enum InvalidArgument {
    /// An integer that names no processor parameter.
    ProcessorParameter(i32),
    /// An integer that names no VAD parameter.
    VadParameter(i32),
    /// A string that names no model type.
    ModelType(String),
    /// The length of a buffer that does not fit the configured block shape.
    BufferLength(usize),
    /// A number of planar channels that differs from the configured one.
    ChannelCount(usize),
    /// The slots of two planar channels whose memory overlaps.
    OverlappingChannels(usize, usize),
}

/// Every failure that a bridge call reports to its host.
#[derive(Debug, Clone, PartialEq)]
pub enum BridgeError {
    /// Refused by the bridge before the engine was reached.
    InvalidArgument(InvalidArgument),
    /// More planar channels than the fixed capacity; holds the count given.
    CapacityExceeded(usize),
    /// The engine is not in a state that allows the call.
    InvalidState,
    /// The engine failed; its message is passed on unchanged.
    Engine(String),
}

/// The four classes of failure, without their payloads.
#[derive(Debug, Clone, Copy, PartialEq, Eq, Structural)]
pub enum ErrorKind {
    InvalidArgument,
    CapacityExceeded,
    InvalidState,
    Engine,
}

impl BridgeError {
    pub open spec fn spec_kind(&self) -> ErrorKind {
        match self {
            BridgeError::InvalidArgument(_) => ErrorKind::InvalidArgument,
            BridgeError::CapacityExceeded(_) => ErrorKind::CapacityExceeded,
            BridgeError::InvalidState => ErrorKind::InvalidState,
            BridgeError::Engine(_) => ErrorKind::Engine,
        }
    }

    /// The class of this failure.
    #[verifier::when_used_as_spec(spec_kind)]
    pub fn kind(&self) -> (r: ErrorKind)
        ensures
            r == self.spec_kind(),
    {
        match self {
            BridgeError::InvalidArgument(_) => ErrorKind::InvalidArgument,
            BridgeError::CapacityExceeded(_) => ErrorKind::CapacityExceeded,
            BridgeError::InvalidState => ErrorKind::InvalidState,
            BridgeError::Engine(_) => ErrorKind::Engine,
        }
    }

    /// Capacity failures are the planar form of an invalid argument.
    pub open spec fn spec_is_invalid_argument(&self) -> bool {
        self is InvalidArgument || self is CapacityExceeded
    }

    /// True for every failure that the bridge detected before the engine.
    #[verifier::when_used_as_spec(spec_is_invalid_argument)]
    pub fn is_invalid_argument(&self) -> (r: bool)
        ensures
            r == self.spec_is_invalid_argument(),
    {
        match self {
            BridgeError::InvalidArgument(_) => true,
            BridgeError::CapacityExceeded(_) => true,
            _ => false,
        }
    }
}

} // verus!
