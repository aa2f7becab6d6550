//! The core of a development-mode supervisor for a locally compiled
//! application.
//!
//! A session starts the application, watches the project's sources, and
//! starts the application anew whenever a source changes; a change to the
//! configuration file reloads the configuration and regenerates the build
//! manifest instead. This crate holds the decisions of such a session, each
//! with its contract: which directories are watched (`scope`), which paths
//! are registered with the watcher (`ignore_set`, `watch`), what a
//! notification means (`events`), and what the control loop does next
//! (`supervisor`). Nothing here reads a file, starts a process or waits:
//! the caller does, and reports back.
//!
//! Around the session stand the options of a run (`options`, `dev_args`,
//! `environment`), the build tool's metadata and manifests (`metadata`,
//! `cargo_settings`, `manifest`), the application's settings (`settings`,
//! `interface`), and what bundling and project generation take from them
//! (`binaries`, `bundle`, `mobile`).

pub mod text;
pub mod search;
pub mod paths;

pub mod environment;
pub mod options;
pub mod manifest;
pub mod dev_args;

pub mod metadata;
pub mod cargo_settings;
pub mod scope;
pub mod ignore_set;
pub mod watch;
pub mod events;
pub mod supervisor;

pub mod settings;
pub mod interface;
pub mod binaries;
pub mod bundle;
pub mod mobile;
