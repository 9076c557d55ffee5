//! A verified bridge between a caller holding a text payload and an external
//! analysis engine invoked as a subprocess.
//!
//! The bridge is a small state machine: the caller submits a payload, the
//! machine asks its host to write the payload to a fixed temp-directory file,
//! to spawn the engine over that file, to read the engine's output file back,
//! and to delete both temp files, and it turns the outcomes of those requests
//! into either the engine's output text or a descriptive error message.
//! The host performs the filesystem and process work; every decision — which
//! paths are used, which arguments are passed, which message reports which
//! failure — is made here and verified.

pub mod bridge;
pub mod decimal;
pub mod messages;
pub mod resolve;
pub mod text;
