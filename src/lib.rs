//! A compiler driver for the Halcyon language: project configuration, a small
//! package manager for git-hosted dependencies, the build pipeline that joins
//! sources into one compilation unit, and the host interface that compiled
//! modules call into when they run.

pub mod cli;
pub mod config;
pub mod docs;
pub mod host;
pub mod logging;
pub mod paths;
pub mod pdm;
pub mod pipeline;
pub mod text;
