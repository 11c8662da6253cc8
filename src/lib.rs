//! Device session logic for a desktop front end that talks to a mobile device
//! over USB: device registry, property typing, developer-image provisioning,
//! cancellable stream sessions, service lookup, SDK extraction filtering and
//! WSL path conversion. Everything here is pure logic; the transports live
//! with the caller.

pub mod text;

pub mod error;
pub mod probe;
pub mod device;
pub mod session;
pub mod relay;
pub mod version;
pub mod provisioning;
pub mod services;
pub mod wsl;
pub mod sdk_filter;
