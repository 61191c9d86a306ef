//! Preparation of a podcast episode for distribution: where the output files
//! go, which transcoder invocations produce them, and in which order the
//! stages run.
//!
//! The library decides and the caller acts: it never touches the file system
//! and never starts a process. A caller asks [`pipeline::Pipeline`] for the
//! next [`pipeline::Action`], performs it, and reports back how it went.

pub mod artwork;
pub mod layout;
pub mod mux;
pub mod options;
pub mod pipeline;
pub mod process;
pub mod status;
pub mod text;
pub mod transcoder;
