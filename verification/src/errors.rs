use vstd::prelude::*;

verus! {

/// Every way an operation of this library can fail. All of these are
/// recoverable results handed to the caller; none aborts the process.
#[derive(Clone, Copy, Debug, PartialEq, Eq, Structural)]
pub enum PlayerError {
    /// None of the well-known configuration paths exists and no path was
    /// supplied explicitly.
    ConfigurationNotFound,
    /// The requested sample rate lies outside the range the engine accepts.
    InvalidSampleRate,
    /// The engine rejected its global startup call.
    InitializationFailed,
    /// The engine rejected a master-volume change.
    VolumeRejected,
    /// The file path handed to a track open does not exist.
    SourceNotFound,
    /// The engine could not open or decode a file or buffer. The engine does
    /// not report a finer-grained reason, so neither does this layer.
    ParseFailed,
}

} // verus!
