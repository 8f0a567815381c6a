//! A declarative job runner: a configuration enumerates named jobs composed of
//! shell steps, inter-job dependencies, templated file transforms and
//! iteration policies.  The engine in this crate resolves iteration
//! specifications, enforces run-once and dependency semantics, and drives the
//! step sequence of every job.
//!
//! All outside effects (template rendering, process spawning, file access) are
//! requested from the caller through [`runner::Op`] values and answered with
//! [`runner::Event`] values, so the whole decision logic is verified while a
//! thin unverified driver performs the effects.

pub mod bindings;
pub mod config;
pub mod context;
pub mod dotenv;
pub mod job;
pub mod runner;
pub mod text;
pub mod utils;
pub mod value;
