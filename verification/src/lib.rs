//! Supervises unattended capture of a live stream, or a one-shot download of a
//! VOD or clip, and post-processes the captured artifact (container remux,
//! thumbnail grid) so that no in-flight artifact is lost on shutdown.
//!
//! This crate holds the decision logic: the poll-loop state machine, the
//! routing of a source URL to a capture target, the construction of output
//! paths and external-tool argument lists, the post-processing plan, and the
//! interrupt-safe finalization protocol over the shared artifact slot. The
//! surrounding process plumbing (subprocesses, the filesystem, timers and
//! signals) acts on the plans this crate computes.

pub mod artifact;
pub mod live;
pub mod paths;
pub mod pipeline;
pub mod route;
pub mod settings;
pub mod supervisor;
