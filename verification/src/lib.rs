//! Interactive browser/editor core for a remote hierarchical key-value node
//! tree. The crate holds the verified heart of the application: the per-tab
//! navigation and edit-mode state machine, path resolution, the node-data
//! representation/conversion engine, and tab-collection coordination. The
//! store client, terminal rendering and key decoding live outside and talk to
//! this crate through plain commands, actions and events.

pub mod app;
pub mod cli;
pub mod command;
pub mod decimal;
pub mod node_data;
pub mod stat;
pub mod tab;
pub mod text;
