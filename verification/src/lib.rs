//! Container management for Linux distributions running under proot on
//! Termux: the decisions, paths, commands and configuration handling of the
//! tool, with their contracts.
pub mod text;
pub mod environment;
pub mod json;
pub mod login;
pub mod container;
pub mod install;
pub mod compression;
pub mod configuration;
pub mod logger;
pub mod setup;
pub mod cli;
