//! An incremental compile-link-execute engine for a REPL over a statically
//! compiled language, together with the pure parts of its terminal front end.
//!
//! The heart of the crate is the session model: an append-only record of
//! accepted input fragments, a linking configuration of external dependencies,
//! and the deterministic rendering of both into a compilable project. The
//! toolchain invocation and the dynamic loading of the built artifact are
//! performed by the surrounding application; the engine decides, for each
//! round, what to build and whether the round commits or is discarded.

pub mod cmds;
pub mod complete;
pub mod construct;
pub mod fragment;
pub mod interface;
pub mod linking;
pub mod session;
pub mod text;
pub mod writer;
