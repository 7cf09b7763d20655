//! Local persistence core of a personal time tracker: event records staged
//! to disk under collision-checked names, and a configuration file edited
//! through an external editor with automatic rollback.
//!
//! The library decides and the program around it performs: file and editor
//! operations are actions the library asks for, and what came of them is
//! handed back as plain values.
pub mod text;
pub mod date;
pub mod cli;
pub mod event;
pub mod paths;
pub mod staging;
pub mod config;
pub mod project;
