//! The two mode enums: the session's top-level mode, and the per-tab mode
//! of the browsing state machine.

use vstd::prelude::*;

verus! {

/// The session's top-level mode.
#[derive(Debug, Clone, Copy, PartialEq, Eq, Structural)]
pub enum AppState {
    /// Showing the connection screen, ready to connect.
    EstablishingConnection,
    /// Editing the connection string.
    EditingConnection,
    /// Browsing through the tabs.
    Tab,
}

impl Default for AppState {
    /// A session starts on the connection screen.
    fn default() -> (r: Self)
        ensures
            r == AppState::EstablishingConnection,
    {
        AppState::EstablishingConnection
    }
}

/// The mode of one tab's state machine.
#[derive(Debug, Clone, Copy, PartialEq, Eq, Structural)]
pub enum TabState {
    /// Browsing the children listing.
    Tab,
    /// Reading the payload of the current node.
    ReadNodeData,
    /// Creating a node: editing the path field.
    EditCreateNodePath,
    /// Creating a node: editing the data field.
    EditCreateNodeData,
    /// Editing the payload of the current node.
    EditNodeData,
    /// Choosing a node to delete.
    DeleteNode,
    /// Awaiting the typed confirmation of a delete.
    ConfirmDelete,
}

impl Default for TabState {
    /// A tab starts browsing.
    fn default() -> (r: Self)
        ensures
            r == TabState::Tab,
    {
        TabState::Tab
    }
}

} // verus!
