//! Standout: the verified core of a CLI output framework — view results,
//! help topics, the run's representation and pager rules, and the emission of
//! a completed run to stdout and stderr.

pub mod assets;
pub mod cli;
pub mod io;
mod json;
pub mod setup;
pub mod text;
pub mod topics;
pub mod views;
