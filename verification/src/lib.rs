//! Pins Linux namespaces to files so that they outlive the process that made them.
//!
//! The crate holds the decisions of a pinning run: which namespaces are asked for, which
//! kernel flags that means, which directories and files are needed, and what follows from
//! each answer of the operating system. The system calls themselves are made by the caller.
pub mod config;
pub mod namespace;
pub mod path;
pub mod pinner;

pub use config::{Config, ConfigError, PathStatus, Probe, Subdir};
pub use namespace::{Namespace, NamespaceKind, Namespaces};
pub use pinner::{Action, BindError, Event, Outcome, Phase, Pinns};
