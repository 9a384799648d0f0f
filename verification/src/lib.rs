//! Verified core of a release-publishing pipeline: version-form derivation,
//! artifact digesting, manifest rendering, signed package-index assembly and
//! bounded-time propagation verification, orchestrated as a state machine
//! whose outside effects (network, git, subprocesses) are performed by an
//! unverified runner.

pub mod bytes;
pub mod checkver;
pub mod digest;
pub mod errors;
pub mod gzip;
pub mod init;
pub mod manifest;
pub mod pipeline;
pub mod template;
pub mod termination;
pub mod version;
