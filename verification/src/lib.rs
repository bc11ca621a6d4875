//! Lifecycle management for the optional extensions of the `pact` command
//! line: discovering, installing, updating, removing and invoking them.
//!
//! The library decides and does no input or output. Its operations are step
//! functions over the actions and events of [`effect`]: the caller carries
//! out each action and reports what came of it.
//!
//! - [`platform`]: the supported platforms and the artifact names of each
//!   extension family.
//! - [`registry`]: the registry of extensions and the set of paths on disk.
//! - [`manager`]: where extensions live, the registry store, the listing.
//! - [`install`]: installation and the bridge for the legacy bundle.
//! - [`uninstall`]: removal.
//! - [`invoke`]: invocation and exit codes.
//! - [`router`]: which command lines go to an extension.
//! - [`command`] and [`listing`]: the `extension` command.
//! - [`laws`]: what holds of the operations as a whole.
//! - [`docker`], [`broker_ruby`], [`telemetry`]: the decisions of the other
//!   commands of the program.
//! - [`text`]: helpers on strings.

pub mod broker_ruby;
pub mod command;
pub mod docker;
pub mod effect;
pub mod error;
pub mod install;
pub mod invoke;
pub mod laws;
pub mod listing;
pub mod manager;
pub mod platform;
pub mod registry;
pub mod router;
pub mod telemetry;
pub mod text;
pub mod uninstall;
