//! The words the core speaks with its surroundings: semantic input commands
//! (already decoded from keys), actions the core asks the runner to perform
//! against the store, and events the runner hands back with the store's
//! answer. The runner performs one action, returns one event, and applies
//! the follow-up action, so one command is fully processed before the next.

use vstd::prelude::*;

use crate::stat::NodeStat;

verus! {

/// One semantic input command.
#[derive(Debug, Clone, Copy, PartialEq, Eq, Structural)]
pub enum Command {
    MoveDown,
    MoveUp,
    ToggleStatAutoLoad,
    Enter,
    Back,
    OpenRead,
    OpenCreate,
    OpenDelete,
    NextTab,
    PrevTab,
    AsString,
    AsJson,
    AsRaw,
    Edit,
    SwitchField,
    Submit,
    Cancel,
    CharInsert(char),
    Backspace,
    EditConnection,
    Quit,
}

/// Why a children listing was requested; the answer is applied differently
/// in each case.
#[derive(Debug, Clone, Copy, PartialEq, Eq, Structural)]
pub enum ChildrenCtx {
    /// Descending into the selected child: on a non-empty answer the child's
    /// name is pushed onto the navigation stack and the cursor moves to the
    /// first entry.
    Descend,
    /// Re-listing the current path after ascending or connecting: the cursor
    /// moves to the first entry.
    Refresh,
    /// Re-listing after a tab switch or a delete: the cursor is kept,
    /// clamped to the new listing.
    Revisit,
}

/// What the core asks the runner to do against the store.
#[derive(Debug, PartialEq)]
pub enum Action {
    /// Nothing to do.
    Idle,
    /// Leave the interaction loop.
    Quit,
    /// Establish the session with the given connection string.
    Connect(String),
    /// List the children of the node at the path.
    FetchChildren(String, ChildrenCtx),
    /// Ask for the metadata of the node at the path.
    FetchStat(String),
    /// Read the payload of the node at the path.
    FetchData(String),
    /// Create a node at the path with the payload.
    Create(String, Vec<u8>),
    /// Replace the payload of the node at the path.
    SetData(String, Vec<u8>),
    /// Delete the node at the path.
    Delete(String),
}

/// The mathematical shadow of `Action`.
#[verifier::ext_equal]
pub ghost enum ActionView {
    Idle,
    Quit,
    Connect(Seq<char>),
    FetchChildren(Seq<char>, ChildrenCtx),
    FetchStat(Seq<char>),
    FetchData(Seq<char>),
    Create(Seq<char>, Seq<u8>),
    SetData(Seq<char>, Seq<u8>),
    Delete(Seq<char>),
}

impl View for Action {
    type V = ActionView;

    open spec fn view(&self) -> ActionView {
        match self {
            Action::Idle => ActionView::Idle,
            Action::Quit => ActionView::Quit,
            Action::Connect(s) => ActionView::Connect(s@),
            Action::FetchChildren(p, ctx) => ActionView::FetchChildren(p@, *ctx),
            Action::FetchStat(p) => ActionView::FetchStat(p@),
            Action::FetchData(p) => ActionView::FetchData(p@),
            Action::Create(p, d) => ActionView::Create(p@, d@),
            Action::SetData(p, d) => ActionView::SetData(p@, d@),
            Action::Delete(p) => ActionView::Delete(p@),
        }
    }
}

/// The store's answer to one action, handed back by the runner. Failures
/// carry the store's error already written out as text.
#[derive(Debug, PartialEq)]
pub enum StoreEvent {
    /// The session was established.
    Connected,
    /// The answer to a children listing.
    Children(ChildrenCtx, Result<Vec<String>, String>),
    /// The answer to a metadata request; `None` when the node does not
    /// exist.
    Stat(Result<Option<NodeStat>, String>),
    /// The answer to a payload read.
    Data(Result<Vec<u8>, String>),
    /// The answer to a create, on success the path the store reports as
    /// created.
    Created(Result<String, String>),
    /// The answer to a payload replacement.
    DataSet(Result<(), String>),
    /// The answer to a delete.
    Deleted(Result<(), String>),
}

/// The mathematical shadow of `StoreEvent`.
#[verifier::ext_equal]
pub ghost enum EventView {
    Connected,
    Children(ChildrenCtx, Result<Seq<Seq<char>>, Seq<char>>),
    Stat(Result<Option<NodeStat>, Seq<char>>),
    Data(Result<Seq<u8>, Seq<char>>),
    Created(Result<Seq<char>, Seq<char>>),
    DataSet(Result<(), Seq<char>>),
    Deleted(Result<(), Seq<char>>),
}

impl View for StoreEvent {
    type V = EventView;

    open spec fn view(&self) -> EventView {
        match self {
            StoreEvent::Connected => EventView::Connected,
            StoreEvent::Children(ctx, r) => EventView::Children(
                *ctx,
                match r {
                    Ok(kids) => Ok(kids.deep_view()),
                    Err(e) => Err(e@),
                },
            ),
            StoreEvent::Stat(r) => EventView::Stat(
                match r {
                    Ok(s) => Ok(*s),
                    Err(e) => Err(e@),
                },
            ),
            StoreEvent::Data(r) => EventView::Data(
                match r {
                    Ok(d) => Ok(d@),
                    Err(e) => Err(e@),
                },
            ),
            StoreEvent::Created(r) => EventView::Created(
                match r {
                    Ok(p) => Ok(p@),
                    Err(e) => Err(e@),
                },
            ),
            StoreEvent::DataSet(r) => EventView::DataSet(
                match r {
                    Ok(u) => Ok(*u),
                    Err(e) => Err(e@),
                },
            ),
            StoreEvent::Deleted(r) => EventView::Deleted(
                match r {
                    Ok(u) => Ok(*u),
                    Err(e) => Err(e@),
                },
            ),
        }
    }
}

} // verus!
