//! Error taxonomy for the session layer.

use vstd::prelude::*;

verus! {

/// A compositor global that the session requires.
#[derive(Clone, Copy, Debug, PartialEq, Eq, Structural)]
pub enum Capability {
    Seat,
    VirtualKeyboardManager,
    VirtualPointerManager,
    ScreencopyManager,
    ShmFactory,
}

/// Why resolving a capture target failed.
#[derive(Clone, Copy, Debug, PartialEq, Eq, Structural)]
pub enum OutputResolutionError {
    /// A name was given but no known output carries it.
    NoSuchName,
    /// No name was given and more than one output is known.
    Ambiguous,
    /// No output is known at all.
    NoOutputs,
}

/// Why shared-memory allocation failed.
#[derive(Clone, Copy, Debug, PartialEq, Eq, Structural)]
pub enum ResourceAllocationError {
    /// Every attempt hit a name collision until the retry budget ran out.
    RetriesExhausted,
    /// The OS reported an error other than a name collision (the errno),
    /// or truncating the freshly created file failed.
    OsError(i32),
}

/// One error value for the whole session layer.
#[derive(Clone, Copy, Debug, PartialEq, Eq, Structural)]
pub enum WdError {
    /// The socket path could not be resolved (no runtime directory).
    Configuration,
    /// A required compositor global was never advertised.
    CapabilityMissing(Capability),
    /// The capture target could not be resolved.
    OutputResolution(OutputResolutionError),
    /// Shared-memory allocation failed.
    ResourceAllocation(ResourceAllocationError),
    /// A randomized range parameter produced invalid distribution
    /// parameters.
    Sampling,
    /// The transport reported a failure while flushing or dispatching.
    Protocol,
}

} // verus!
