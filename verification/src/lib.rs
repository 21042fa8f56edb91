//! Core of a small image-upload HTTP service.
//!
//! The heart of the crate is the process supervisor: the component that owns
//! the HTTP listener's lifecycle and reacts to OS termination signals and to
//! live changes of an on-disk configuration file, starting, hot-reloading and
//! gracefully draining the server. Configuration parsing, the supervisor state
//! machine and the decision logic of the image services are verified; the
//! surrounding I/O (sockets, signals, the filesystem watcher, the database) is
//! driven by a thin unverified shell that consumes the actions this library
//! hands out.

pub mod config;
pub mod decimal;
pub mod domain;
pub mod ports;
pub mod process;
pub mod server;
pub mod server_handler;
pub mod services;
pub mod state;
pub mod strutil;
pub mod web;
