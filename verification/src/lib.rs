//! A host-side plugin system for `iced` applications.
//!
//! A plugin is a shared library that exports one entry point returning a boxed
//! [`Plugin`]. The host keeps its loaded plugins in a [`PluginHandler`], which
//! routes type-erased [`MessageType`] messages to a plugin by its identifier and
//! tags everything a plugin produces with that identifier.
//!
//! The library is built on the crates that `iced` is made of (`iced_core` for
//! the widget tree, `iced_runtime` for commands, `iced_futures` for
//! subscriptions, `iced_widget` for the built-in theme and renderer) and not on
//! the umbrella crate: it needs these types only, and no windowing shell. They
//! are the same types that `iced` re-exports, so a host built on `iced` uses
//! the library as it is.
mod apply;
pub mod handler;
pub mod loader;
pub mod message;
pub mod plugin;

pub use handler::PluginHandler;
pub use loader::{entry_point, library_file, LoadError, LoadedPlugin};
pub use message::MessageType;
pub use plugin::{default_version, retag_commands, Plugin, PluginFunction, PluginLoader};
