//! Sidecar launch orchestration core.
//!
//! A desktop launcher boots a local background server process (the
//! "sidecar"), waits for it to accept TCP connections, and opens it in the
//! default viewer.  This crate holds the verified heart of that launcher:
//! URL formatting, readiness-poll decisions, asset-directory resolution,
//! output-line filtering, and the launch state machine.  The unverifiable
//! edges — sockets, the filesystem walk, process spawning, the presentation
//! sink — live in the surrounding binary, which drives the state machine
//! with plain events and carries out the actions it emits.

pub mod assets;
pub mod launch;
pub mod netprobe;
pub mod output;
pub mod urls;
