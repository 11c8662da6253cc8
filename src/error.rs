use vstd::prelude::*;

verus! {

/// The failures that the device core reports. Each carries a short detail
/// (a key, a uuid, a service name or the underlying cause).
#[derive(Debug, Clone, PartialEq, Eq)]
pub enum DeviceError {
    /// The multiplexing daemon or a tunnel could not be reached.
    ConnectionFailed(String),
    /// No attached device has the requested uuid.
    DeviceNotFound(String),
    /// The handshake succeeded but the named service is absent.
    ServiceNotFound(String),
    /// A property read returned a value of the wrong shape.
    UnexpectedValueType(String),
    /// A download failed (transport error or non-success status).
    DownloadFailed(String),
    /// The device rejected the image, or it could not be read.
    MountFailed(String),
    /// A stop was requested while no stream of that kind is active.
    NoActiveStream(String),
    /// The target application could not be launched.
    LaunchFailed(String),
}

} // verus!
