//! One browsing context: the children listing with its cursor, the
//! navigation stack and current leaf, the payload being read or edited, the
//! edit buffers, and the tab's mode. `tab_step` and `tab_apply` are the
//! transition tables: one says how a command moves the tab and what the
//! runner must ask the store, the other how the store's answer lands.

use vstd::prelude::*;
use vstd::utf8::encode_utf8;

use crate::app::state::TabState;
use crate::command::{Action, ActionView, ChildrenCtx, Command, StoreEvent, EventView};
use crate::text::{pop_char, push_char};
use crate::node_data::{
    json_wf, spec_to_json, spec_to_raw, spec_to_text, spec_render, NodeData, NodeDataView,
};
use crate::stat::NodeStat;
use vstd::string::StrSliceExecFns;

verus! {

/// One browsing context.
#[derive(Debug)]
pub struct Tab {
    /// Names of the children of the currently listed node, in store order.
    pub tab_data: Vec<String>,
    /// The cursor into `tab_data`.
    pub selection: Option<usize>,
    /// The path component entered but not yet pushed: the "/name" of the
    /// node the cursor last stopped on.
    pub curr_resource: Option<String>,
    /// Path components accumulated by descending into children.
    pub prev_resources: Vec<String>,
    /// The last fetched metadata snapshot of the current node.
    pub current_node_stat: Option<NodeStat>,
    /// Transient status text.
    pub message: String,
    /// The payload being read or edited.
    pub node_data: NodeData,
    /// Edit buffer for a node path.
    pub node_path_buf: String,
    /// Edit buffer for a node payload.
    pub node_data_buf: String,
    /// Edit buffer for the delete confirmation.
    pub input_buf: String,
    /// The tab's mode.
    pub state: TabState,
    /// Whether moving the cursor refreshes the metadata snapshot.
    pub toggle_stats_auto_load: bool,
}

/// The mathematical shadow of `Tab`.
#[verifier::ext_equal]
pub ghost struct TabView {
    pub tab_data: Seq<Seq<char>>,
    pub selection: Option<int>,
    pub curr_resource: Option<Seq<char>>,
    pub prev_resources: Seq<Seq<char>>,
    pub current_node_stat: Option<NodeStat>,
    pub message: Seq<char>,
    pub node_data: NodeDataView,
    pub node_path_buf: Seq<char>,
    pub node_data_buf: Seq<char>,
    pub input_buf: Seq<char>,
    pub state: TabState,
    pub toggle_stats_auto_load: bool,
}

impl View for Tab {
    type V = TabView;

    open spec fn view(&self) -> TabView {
        TabView {
            tab_data: self.tab_data.deep_view(),
            selection: match self.selection {
                Some(i) => Some(i as int),
                None => None,
            },
            curr_resource: match self.curr_resource {
                Some(ref c) => Some(c@),
                None => None,
            },
            prev_resources: self.prev_resources.deep_view(),
            current_node_stat: self.current_node_stat,
            message: self.message@,
            node_data: self.node_data@,
            node_path_buf: self.node_path_buf@,
            node_data_buf: self.node_data_buf@,
            input_buf: self.input_buf@,
            state: self.state,
            toggle_stats_auto_load: self.toggle_stats_auto_load,
        }
    }
}

/// The tab's invariant: the cursor points into the listing, and a
/// structured payload holds canonical text.
pub open spec fn spec_tab_wf(t: TabView) -> bool {
    &&& (t.selection matches Some(i) ==> 0 <= i < t.tab_data.len())
    &&& json_wf(t.node_data)
}

/// Circular cursor advance: on an empty listing nothing moves; with no
/// cursor the first entry is chosen; past the last entry the cursor wraps
/// to the first.
pub open spec fn spec_sel_next(sel: Option<int>, len: int) -> Option<int> {
    if len <= 0 {
        sel
    } else {
        match sel {
            None => Some(0int),
            Some(i) => if i >= len - 1 {
                Some(0int)
            } else {
                Some(i + 1)
            },
        }
    }
}

/// Circular cursor retreat, the exact inverse of `spec_sel_next`.
pub open spec fn spec_sel_prev(sel: Option<int>, len: int) -> Option<int> {
    if len <= 0 {
        sel
    } else {
        match sel {
            None => Some(0int),
            Some(i) => if i == 0 {
                Some(len - 1)
            } else {
                Some(i - 1)
            },
        }
    }
}

/// The cursor after a listing replacement that keeps it: clamped to the new
/// length.
pub open spec fn spec_sel_clamp(sel: Option<int>, len: int) -> Option<int> {
    match sel {
        None => None,
        Some(i) => if i < len {
            Some(i)
        } else {
            Some(len - 1)
        },
    }
}

/// All path components of the stack, joined in stack order.
pub open spec fn spec_concat_all(parts: Seq<Seq<char>>) -> Seq<char>
    decreases parts.len(),
{
    if parts.len() == 0 {
        Seq::empty()
    } else {
        spec_concat_all(parts.drop_last()) + parts.last()
    }
}

/// The absolute path of the current node: the stack components in order,
/// then the current leaf; the root marker when both are empty.
pub open spec fn spec_full_path(prev: Seq<Seq<char>>, curr: Option<Seq<char>>) -> Seq<char> {
    if prev.len() == 0 && curr is None {
        "/"@
    } else {
        spec_concat_all(prev) + (match curr {
            Some(c) => c,
            None => Seq::empty(),
        })
    }
}

/// The absolute path of the tab's current node.
pub open spec fn spec_tab_path(t: TabView) -> Seq<char> {
    spec_full_path(t.prev_resources, t.curr_resource)
}

/// The view of an optional string.
pub open spec fn opt_str_view(o: Option<String>) -> Option<Seq<char>> {
    match o {
        Some(s) => Some(s@),
        None => None,
    }
}

/// The "/name" of the child under the cursor, if the cursor points into the
/// listing.
pub open spec fn spec_selected_resource(t: TabView) -> Option<Seq<char>> {
    match t.selection {
        Some(i) => if 0 <= i < t.tab_data.len() {
            Some(seq!['/'] + t.tab_data[i])
        } else {
            None
        },
        None => None,
    }
}

impl Tab {
    /// A fresh tab: empty listing, no cursor yet, empty stack, no leaf,
    /// browsing, metadata auto-load on.
    pub fn new() -> (r: Self)
        ensures
            r@ == spec_tab_new(),
            spec_tab_wf(r@),
    {
        let r = Tab {
            tab_data: Vec::new(),
            selection: None,
            curr_resource: None,
            prev_resources: Vec::new(),
            current_node_stat: None,
            message: String::new(),
            node_data: NodeData::empty(),
            node_path_buf: String::new(),
            node_data_buf: String::new(),
            input_buf: String::new(),
            state: TabState::Tab,
            toggle_stats_auto_load: true,
        };
        proof {
            assert(r@ =~= spec_tab_new());
        }
        r
    }

    /// All stack components joined in order.
    fn concat_prev(&self) -> (r: String)
        ensures
            r@ == spec_concat_all(self@.prev_resources),
    {
        let mut acc = String::new();
        let mut i: usize = 0;
        proof {
            assert(self@.prev_resources.take(0) =~= Seq::<Seq<char>>::empty());
        }
        while i < self.prev_resources.len()
            invariant
                i <= self.prev_resources.len(),
                self@.prev_resources.len() == self.prev_resources.len(),
                acc@ == spec_concat_all(self@.prev_resources.take(i as int)),
            decreases self.prev_resources.len() - i,
        {
            let part = &self.prev_resources[i];
            let joined = acc.concat(part.as_str());
            acc = joined;
            proof {
                let grown = self@.prev_resources.take(i as int + 1);
                assert(grown.drop_last() =~= self@.prev_resources.take(i as int));
                assert(grown.last() == self@.prev_resources[i as int]);
                assert(acc@ =~= spec_concat_all(grown));
            }
            i = i + 1;
        }
        proof {
            assert(self@.prev_resources.take(self.prev_resources.len() as int)
                =~= self@.prev_resources);
        }
        acc
    }

    /// The absolute path of this tab's current node.
    pub fn full_resource_path(&self) -> (r: String)
        ensures
            r@ == spec_tab_path(self@),
    {
        if self.prev_resources.len() == 0 && self.curr_resource.is_none() {
            return "/".to_owned();
        }
        let acc = self.concat_prev();
        match self.curr_resource {
            Some(ref c) => acc.concat(c.as_str()),
            None => acc,
        }
    }

    /// The "/name" of the child under the cursor, if any.
    pub fn selected_resource(&self) -> (r: Option<String>)
        ensures
            opt_str_view(r) == spec_selected_resource(self@),
    {
        match self.selection {
            Some(i) => {
                if i < self.tab_data.len() {
                    let mut s = String::new();
                    push_char(&mut s, '/');
                    let joined = s.concat(self.tab_data[i].as_str());
                    proof {
                        assert(joined@ =~= seq!['/'] + self@.tab_data[i as int]);
                    }
                    Some(joined)
                } else {
                    None
                }
            },
            None => None,
        }
    }
}

impl Default for Tab {
    /// A fresh tab, as `Tab::new` makes it.
    fn default() -> (r: Self)
        ensures
            r@ == spec_tab_new(),
            spec_tab_wf(r@),
    {
        Tab::new()
    }
}

/// A backspace on an edit buffer: drops the last character, if any.
pub open spec fn spec_buf_backspace(buf: Seq<char>) -> Seq<char> {
    if buf.len() > 0 {
        buf.drop_last()
    } else {
        buf
    }
}

/// The metadata refresh after a cursor move: asked of the store when
/// auto-load is on and the session is connected; with auto-load on but no
/// client attached, the absence surfaces as a recoverable message instead.
pub open spec fn spec_stat_step(t: TabView, zk: bool) -> (TabView, ActionView) {
    if t.toggle_stats_auto_load {
        if zk {
            (t, ActionView::FetchStat(spec_tab_path(t)))
        } else {
            (TabView { message: "Failed to get zookeeper client"@, ..t }, ActionView::Idle)
        }
    } else {
        (t, ActionView::Idle)
    }
}

/// One command against a browsing tab.
pub open spec fn tab_step_browsing(t: TabView, zk: bool, cmd: Command) -> (TabView, ActionView) {
    match cmd {
        Command::MoveDown => {
            let moved = TabView {
                selection: spec_sel_next(t.selection, t.tab_data.len() as int),
                ..t
            };
            let placed = TabView { curr_resource: spec_selected_resource(moved), ..moved };
            spec_stat_step(placed, zk)
        },
        Command::MoveUp => {
            let moved = TabView {
                selection: spec_sel_prev(t.selection, t.tab_data.len() as int),
                ..t
            };
            let placed = TabView { curr_resource: spec_selected_resource(moved), ..moved };
            spec_stat_step(placed, zk)
        },
        Command::ToggleStatAutoLoad => {
            if t.toggle_stats_auto_load {
                (
                    TabView { toggle_stats_auto_load: false, current_node_stat: None, ..t },
                    ActionView::Idle,
                )
            } else {
                let on = TabView { toggle_stats_auto_load: true, ..t };
                spec_stat_step(on, zk)
            }
        },
        Command::Enter => match spec_selected_resource(t) {
            Some(name) => if zk {
                (
                    t,
                    ActionView::FetchChildren(
                        spec_concat_all(t.prev_resources) + name,
                        ChildrenCtx::Descend,
                    ),
                )
            } else {
                (
                    TabView { message: "Failed to get zookeeper client"@, ..t },
                    ActionView::Idle,
                )
            },
            None => (t, ActionView::Idle),
        },
        Command::Back => {
            if t.prev_resources.len() == 0 && t.curr_resource is None {
                (t, ActionView::Idle)
            } else {
                let up = if t.curr_resource is Some {
                    TabView { curr_resource: None, ..t }
                } else {
                    TabView { prev_resources: t.prev_resources.drop_last(), ..t }
                };
                if zk {
                    (up, ActionView::FetchChildren(spec_tab_path(up), ChildrenCtx::Refresh))
                } else {
                    (
                        TabView { message: "Failed to get zookeeper client"@, ..up },
                        ActionView::Idle,
                    )
                }
            }
        },
        Command::OpenRead => {
            let rd = TabView { state: TabState::ReadNodeData, ..t };
            if zk {
                (rd, ActionView::FetchData(spec_tab_path(rd)))
            } else {
                (
                    TabView { message: "Failed to get zookeeper client"@, ..rd },
                    ActionView::Idle,
                )
            }
        },
        Command::OpenCreate => (
            TabView {
                state: TabState::EditCreateNodePath,
                node_path_buf: spec_tab_path(t),
                node_data_buf: Seq::empty(),
                ..t
            },
            ActionView::Idle,
        ),
        Command::OpenDelete => (
            TabView { state: TabState::DeleteNode, node_path_buf: spec_tab_path(t), ..t },
            ActionView::Idle,
        ),
        _ => (t, ActionView::Idle),
    }
}

/// One command against a tab that is reading node data.
pub open spec fn tab_step_reading(t: TabView, cmd: Command) -> (TabView, ActionView) {
    match cmd {
        Command::AsString => (
            TabView { node_data: spec_to_text(t.node_data), ..t },
            ActionView::Idle,
        ),
        Command::AsJson => (TabView { node_data: spec_to_json(t.node_data), ..t }, ActionView::Idle),
        Command::AsRaw => (TabView { node_data: spec_to_raw(t.node_data), ..t }, ActionView::Idle),
        Command::Edit => {
            let nd = spec_to_text(t.node_data);
            (
                TabView {
                    node_data: nd,
                    node_data_buf: spec_render(nd),
                    state: TabState::EditNodeData,
                    ..t
                },
                ActionView::Idle,
            )
        },
        Command::Cancel => (TabView { state: TabState::Tab, ..t }, ActionView::Idle),
        _ => (t, ActionView::Idle),
    }
}

/// Submitting the create form: the path buffer names the node, the data
/// buffer's UTF-8 bytes are its payload; without a connected session only
/// the failure message is set. The buffers stay as they are either way.
pub open spec fn spec_create_submit(t: TabView, zk: bool) -> (TabView, ActionView) {
    if zk {
        (t, ActionView::Create(t.node_path_buf, encode_utf8(t.node_data_buf)))
    } else {
        (TabView { message: "Failed to get zookeeper client"@, ..t }, ActionView::Idle)
    }
}

/// One command against a tab editing the path field of the create form.
pub open spec fn tab_step_create_path(t: TabView, zk: bool, cmd: Command) -> (TabView, ActionView) {
    match cmd {
        Command::CharInsert(c) => (
            TabView { node_path_buf: t.node_path_buf.push(c), ..t },
            ActionView::Idle,
        ),
        Command::Backspace => (
            TabView { node_path_buf: spec_buf_backspace(t.node_path_buf), ..t },
            ActionView::Idle,
        ),
        Command::SwitchField => (
            TabView { state: TabState::EditCreateNodeData, ..t },
            ActionView::Idle,
        ),
        Command::Submit => spec_create_submit(t, zk),
        Command::Cancel => (TabView { state: TabState::Tab, ..t }, ActionView::Idle),
        _ => (t, ActionView::Idle),
    }
}

/// One command against a tab editing the data field of the create form.
pub open spec fn tab_step_create_data(t: TabView, zk: bool, cmd: Command) -> (TabView, ActionView) {
    match cmd {
        Command::CharInsert(c) => (
            TabView { node_data_buf: t.node_data_buf.push(c), ..t },
            ActionView::Idle,
        ),
        Command::Backspace => (
            TabView { node_data_buf: spec_buf_backspace(t.node_data_buf), ..t },
            ActionView::Idle,
        ),
        Command::SwitchField => (
            TabView { state: TabState::EditCreateNodePath, ..t },
            ActionView::Idle,
        ),
        Command::Submit => spec_create_submit(t, zk),
        Command::Cancel => (TabView { state: TabState::Tab, ..t }, ActionView::Idle),
        _ => (t, ActionView::Idle),
    }
}

/// One command against a tab editing the current node's payload.
pub open spec fn tab_step_edit_data(t: TabView, zk: bool, cmd: Command) -> (TabView, ActionView) {
    match cmd {
        Command::CharInsert(c) => (
            TabView { node_data_buf: t.node_data_buf.push(c), ..t },
            ActionView::Idle,
        ),
        Command::Backspace => (
            TabView { node_data_buf: spec_buf_backspace(t.node_data_buf), ..t },
            ActionView::Idle,
        ),
        Command::Cancel => {
            let rd = TabView { state: TabState::ReadNodeData, ..t };
            if zk {
                (rd, ActionView::FetchData(spec_tab_path(rd)))
            } else {
                (
                    TabView { message: "Failed to get zookeeper client"@, ..rd },
                    ActionView::Idle,
                )
            }
        },
        Command::Submit => {
            if zk {
                let rd = TabView { node_data_buf: Seq::empty(), state: TabState::ReadNodeData, ..t };
                (rd, ActionView::SetData(spec_tab_path(rd), encode_utf8(t.node_data_buf)))
            } else {
                (
                    TabView {
                        node_data_buf: Seq::empty(),
                        state: TabState::ReadNodeData,
                        message: "Failed to get zookeeper client"@,
                        ..t
                    },
                    ActionView::Idle,
                )
            }
        },
        _ => (t, ActionView::Idle),
    }
}

/// One command against a tab choosing the delete target.
pub open spec fn tab_step_delete(t: TabView, cmd: Command) -> (TabView, ActionView) {
    match cmd {
        Command::CharInsert(c) => (
            TabView { node_path_buf: t.node_path_buf.push(c), ..t },
            ActionView::Idle,
        ),
        Command::Backspace => (
            TabView { node_path_buf: spec_buf_backspace(t.node_path_buf), ..t },
            ActionView::Idle,
        ),
        Command::Submit => (TabView { state: TabState::ConfirmDelete, ..t }, ActionView::Idle),
        Command::Cancel => (TabView { state: TabState::Tab, ..t }, ActionView::Idle),
        _ => (t, ActionView::Idle),
    }
}

/// One command against a tab awaiting the typed delete confirmation. A
/// submit consumes the confirmation buffer; the delete is requested exactly
/// when the buffer held the confirmation string, letter for letter.
pub open spec fn tab_step_confirm(t: TabView, zk: bool, cmd: Command) -> (TabView, ActionView) {
    match cmd {
        Command::CharInsert(c) => (
            TabView { input_buf: t.input_buf.push(c), ..t },
            ActionView::Idle,
        ),
        Command::Backspace => (
            TabView { input_buf: spec_buf_backspace(t.input_buf), ..t },
            ActionView::Idle,
        ),
        Command::Cancel => (TabView { state: TabState::DeleteNode, ..t }, ActionView::Idle),
        Command::Submit => {
            let cleared = TabView { input_buf: Seq::empty(), ..t };
            if t.input_buf == "DELETE"@ {
                if zk {
                    (cleared, ActionView::Delete(spec_tab_path(cleared)))
                } else {
                    (
                        TabView {
                            message: "Failed to get zookeeper client"@,
                            state: TabState::Tab,
                            curr_resource: None,
                            ..cleared
                        },
                        ActionView::Idle,
                    )
                }
            } else {
                (
                    TabView { message: "Incorrect confirmation string"@, ..cleared },
                    ActionView::Idle,
                )
            }
        },
        _ => (t, ActionView::Idle),
    }
}

/// The tab's transition table, one command at a time: dispatches on the
/// tab's mode.
pub open spec fn tab_step(t: TabView, zk: bool, cmd: Command) -> (TabView, ActionView) {
    match t.state {
        TabState::Tab => tab_step_browsing(t, zk, cmd),
        TabState::ReadNodeData => tab_step_reading(t, cmd),
        TabState::EditCreateNodePath => tab_step_create_path(t, zk, cmd),
        TabState::EditCreateNodeData => tab_step_create_data(t, zk, cmd),
        TabState::EditNodeData => tab_step_edit_data(t, zk, cmd),
        TabState::DeleteNode => tab_step_delete(t, cmd),
        TabState::ConfirmDelete => tab_step_confirm(t, zk, cmd),
    }
}

impl Tab {
    /// Advances the cursor circularly over the listing: with no cursor the
    /// first entry is chosen; past the last entry it wraps to the first; on
    /// an empty listing nothing moves.
    pub fn next(&mut self)
        ensures
            final(self)@ == (TabView {
                selection: spec_sel_next(old(self)@.selection, old(self)@.tab_data.len() as int),
                ..old(self)@
            }),
            spec_tab_wf(old(self)@) ==> spec_tab_wf(final(self)@),
    {
        let len = self.tab_data.len();
        match self.selection {
            None => {
                if len > 0 {
                    self.selection = Some(0);
                }
            },
            Some(i) => {
                if len > 0 {
                    self.selection = Some(
                        if i >= len - 1 {
                            0
                        } else {
                            i + 1
                        },
                    );
                }
            },
        }
        proof {
            assert(self@ =~= TabView {
                selection: spec_sel_next(old(self)@.selection, old(self)@.tab_data.len() as int),
                ..old(self)@
            });
        }
    }

    /// Retreats the cursor circularly over the listing, the exact inverse
    /// of `next` on a non-empty listing.
    pub fn previous(&mut self)
        ensures
            final(self)@ == (TabView {
                selection: spec_sel_prev(old(self)@.selection, old(self)@.tab_data.len() as int),
                ..old(self)@
            }),
            spec_tab_wf(old(self)@) ==> spec_tab_wf(final(self)@),
    {
        let len = self.tab_data.len();
        match self.selection {
            None => {
                if len > 0 {
                    self.selection = Some(0);
                }
            },
            Some(i) => {
                if len > 0 {
                    self.selection = Some(
                        if i == 0 {
                            len - 1
                        } else {
                            i - 1
                        },
                    );
                }
            },
        }
        proof {
            assert(self@ =~= TabView {
                selection: spec_sel_prev(old(self)@.selection, old(self)@.tab_data.len() as int),
                ..old(self)@
            });
        }
    }

    /// Asks the store for the current node's metadata, as `spec_stat_step`
    /// says: only with auto-load on, and only when the client is attached;
    /// with auto-load on but no client, the absence surfaces as a message.
    fn ask_for_stat(&mut self, zk: bool) -> (a: Action)
        ensures
            final(self)@ == spec_stat_step(old(self)@, zk).0,
            a@ == spec_stat_step(old(self)@, zk).1,
            spec_tab_wf(old(self)@) ==> spec_tab_wf(final(self)@),
    {
        if self.toggle_stats_auto_load {
            if zk {
                let p = self.full_resource_path();
                Action::FetchStat(p)
            } else {
                self.message = "Failed to get zookeeper client".to_owned();
                Action::Idle
            }
        } else {
            Action::Idle
        }
    }

    /// One command against a browsing tab.
    fn step_browsing(&mut self, zk: bool, cmd: Command) -> (a: Action)
        ensures
            final(self)@ == tab_step_browsing(old(self)@, zk, cmd).0,
            a@ == tab_step_browsing(old(self)@, zk, cmd).1,
            spec_tab_wf(old(self)@) ==> spec_tab_wf(final(self)@),
    {
        match cmd {
            Command::MoveDown => {
                self.next();
                let ghost moved = TabView {
                    selection: spec_sel_next(old(self)@.selection, old(self)@.tab_data.len() as int),
                    ..old(self)@
                };
                let sel = self.selected_resource();
                self.curr_resource = sel;
                proof {
                    assert(self@ =~= TabView { curr_resource: spec_selected_resource(moved), ..moved });
                }
                self.ask_for_stat(zk)
            },
            Command::MoveUp => {
                self.previous();
                let ghost moved = TabView {
                    selection: spec_sel_prev(old(self)@.selection, old(self)@.tab_data.len() as int),
                    ..old(self)@
                };
                let sel = self.selected_resource();
                self.curr_resource = sel;
                proof {
                    assert(self@ =~= TabView { curr_resource: spec_selected_resource(moved), ..moved });
                }
                self.ask_for_stat(zk)
            },
            Command::ToggleStatAutoLoad => {
                if self.toggle_stats_auto_load {
                    self.toggle_stats_auto_load = false;
                    self.current_node_stat = None;
                    Action::Idle
                } else {
                    self.toggle_stats_auto_load = true;
                    self.ask_for_stat(zk)
                }
            },
            Command::Enter => {
                match self.selected_resource() {
                    Some(name) => {
                        if zk {
                            let base = self.concat_prev();
                            let p = base.concat(name.as_str());
                            Action::FetchChildren(p, ChildrenCtx::Descend)
                        } else {
                            self.message = "Failed to get zookeeper client".to_owned();
                            Action::Idle
                        }
                    },
                    None => Action::Idle,
                }
            },
            Command::Back => {
                if self.prev_resources.len() == 0 && self.curr_resource.is_none() {
                    Action::Idle
                } else {
                    if self.curr_resource.is_some() {
                        self.curr_resource = None;
                    } else {
                        self.prev_resources.pop();
                        proof {
                            assert(self.prev_resources.deep_view() =~= old(
                                self,
                            )@.prev_resources.drop_last());
                            assert(self@ =~= TabView {
                                prev_resources: old(self)@.prev_resources.drop_last(),
                                ..old(self)@
                            });
                        }
                    }
                    if zk {
                        let p = self.full_resource_path();
                        Action::FetchChildren(p, ChildrenCtx::Refresh)
                    } else {
                        self.message = "Failed to get zookeeper client".to_owned();
                        Action::Idle
                    }
                }
            },
            Command::OpenRead => {
                self.state = TabState::ReadNodeData;
                if zk {
                    let p = self.full_resource_path();
                    Action::FetchData(p)
                } else {
                    self.message = "Failed to get zookeeper client".to_owned();
                    Action::Idle
                }
            },
            Command::OpenCreate => {
                let p = self.full_resource_path();
                self.state = TabState::EditCreateNodePath;
                self.node_path_buf = p;
                self.node_data_buf = String::new();
                Action::Idle
            },
            Command::OpenDelete => {
                let p = self.full_resource_path();
                self.state = TabState::DeleteNode;
                self.node_path_buf = p;
                Action::Idle
            },
            _ => Action::Idle,
        }
    }

    /// One command against a tab that is reading node data.
    fn step_reading(&mut self, cmd: Command) -> (a: Action)
        ensures
            final(self)@ == tab_step_reading(old(self)@, cmd).0,
            a@ == tab_step_reading(old(self)@, cmd).1,
            spec_tab_wf(old(self)@) ==> spec_tab_wf(final(self)@),
    {
        match cmd {
            Command::AsString => {
                let mut nd = NodeData::empty();
                core::mem::swap(&mut self.node_data, &mut nd);
                self.node_data = nd.convert_to_string();
                Action::Idle
            },
            Command::AsJson => {
                let mut nd = NodeData::empty();
                core::mem::swap(&mut self.node_data, &mut nd);
                self.node_data = nd.convert_to_json();
                Action::Idle
            },
            Command::AsRaw => {
                let mut nd = NodeData::empty();
                core::mem::swap(&mut self.node_data, &mut nd);
                self.node_data = nd.convert_to_raw();
                Action::Idle
            },
            Command::Edit => {
                let mut nd = NodeData::empty();
                core::mem::swap(&mut self.node_data, &mut nd);
                let converted = nd.convert_to_string();
                self.node_data_buf = converted.display_string();
                self.node_data = converted;
                self.state = TabState::EditNodeData;
                Action::Idle
            },
            Command::Cancel => {
                self.state = TabState::Tab;
                Action::Idle
            },
            _ => Action::Idle,
        }
    }

    /// Submits the create form against the store.
    fn submit_create(&mut self, zk: bool) -> (a: Action)
        ensures
            final(self)@ == spec_create_submit(old(self)@, zk).0,
            a@ == spec_create_submit(old(self)@, zk).1,
            spec_tab_wf(old(self)@) ==> spec_tab_wf(final(self)@),
    {
        if zk {
            let path = self.node_path_buf.clone();
            let data = self.node_data_buf.as_str().as_bytes_vec();
            Action::Create(path, data)
        } else {
            self.message = "Failed to get zookeeper client".to_owned();
            Action::Idle
        }
    }

    /// One command against a tab editing the path field of the create form.
    fn step_create_path(&mut self, zk: bool, cmd: Command) -> (a: Action)
        ensures
            final(self)@ == tab_step_create_path(old(self)@, zk, cmd).0,
            a@ == tab_step_create_path(old(self)@, zk, cmd).1,
            spec_tab_wf(old(self)@) ==> spec_tab_wf(final(self)@),
    {
        match cmd {
            Command::CharInsert(c) => {
                push_char(&mut self.node_path_buf, c);
                Action::Idle
            },
            Command::Backspace => {
                pop_char(&mut self.node_path_buf);
                Action::Idle
            },
            Command::SwitchField => {
                self.state = TabState::EditCreateNodeData;
                Action::Idle
            },
            Command::Submit => self.submit_create(zk),
            Command::Cancel => {
                self.state = TabState::Tab;
                Action::Idle
            },
            _ => Action::Idle,
        }
    }

    /// One command against a tab editing the data field of the create form.
    fn step_create_data(&mut self, zk: bool, cmd: Command) -> (a: Action)
        ensures
            final(self)@ == tab_step_create_data(old(self)@, zk, cmd).0,
            a@ == tab_step_create_data(old(self)@, zk, cmd).1,
            spec_tab_wf(old(self)@) ==> spec_tab_wf(final(self)@),
    {
        match cmd {
            Command::CharInsert(c) => {
                push_char(&mut self.node_data_buf, c);
                Action::Idle
            },
            Command::Backspace => {
                pop_char(&mut self.node_data_buf);
                Action::Idle
            },
            Command::SwitchField => {
                self.state = TabState::EditCreateNodePath;
                Action::Idle
            },
            Command::Submit => self.submit_create(zk),
            Command::Cancel => {
                self.state = TabState::Tab;
                Action::Idle
            },
            _ => Action::Idle,
        }
    }

    /// One command against a tab editing the current node's payload.
    fn step_edit_data(&mut self, zk: bool, cmd: Command) -> (a: Action)
        ensures
            final(self)@ == tab_step_edit_data(old(self)@, zk, cmd).0,
            a@ == tab_step_edit_data(old(self)@, zk, cmd).1,
            spec_tab_wf(old(self)@) ==> spec_tab_wf(final(self)@),
    {
        match cmd {
            Command::CharInsert(c) => {
                push_char(&mut self.node_data_buf, c);
                Action::Idle
            },
            Command::Backspace => {
                pop_char(&mut self.node_data_buf);
                Action::Idle
            },
            Command::Cancel => {
                self.state = TabState::ReadNodeData;
                if zk {
                    let p = self.full_resource_path();
                    Action::FetchData(p)
                } else {
                    self.message = "Failed to get zookeeper client".to_owned();
                    Action::Idle
                }
            },
            Command::Submit => {
                let mut buf = String::new();
                core::mem::swap(&mut self.node_data_buf, &mut buf);
                self.state = TabState::ReadNodeData;
                if zk {
                    let p = self.full_resource_path();
                    let data = buf.as_str().as_bytes_vec();
                    Action::SetData(p, data)
                } else {
                    self.message = "Failed to get zookeeper client".to_owned();
                    Action::Idle
                }
            },
            _ => Action::Idle,
        }
    }

    /// One command against a tab choosing the delete target.
    fn step_delete(&mut self, cmd: Command) -> (a: Action)
        ensures
            final(self)@ == tab_step_delete(old(self)@, cmd).0,
            a@ == tab_step_delete(old(self)@, cmd).1,
            spec_tab_wf(old(self)@) ==> spec_tab_wf(final(self)@),
    {
        match cmd {
            Command::CharInsert(c) => {
                push_char(&mut self.node_path_buf, c);
                Action::Idle
            },
            Command::Backspace => {
                pop_char(&mut self.node_path_buf);
                Action::Idle
            },
            Command::Submit => {
                self.state = TabState::ConfirmDelete;
                Action::Idle
            },
            Command::Cancel => {
                self.state = TabState::Tab;
                Action::Idle
            },
            _ => Action::Idle,
        }
    }

    /// One command against a tab awaiting the typed delete confirmation.
    fn step_confirm(&mut self, zk: bool, cmd: Command) -> (a: Action)
        ensures
            final(self)@ == tab_step_confirm(old(self)@, zk, cmd).0,
            a@ == tab_step_confirm(old(self)@, zk, cmd).1,
            spec_tab_wf(old(self)@) ==> spec_tab_wf(final(self)@),
    {
        match cmd {
            Command::CharInsert(c) => {
                push_char(&mut self.input_buf, c);
                Action::Idle
            },
            Command::Backspace => {
                pop_char(&mut self.input_buf);
                Action::Idle
            },
            Command::Cancel => {
                self.state = TabState::DeleteNode;
                Action::Idle
            },
            Command::Submit => {
                let mut typed = String::new();
                core::mem::swap(&mut self.input_buf, &mut typed);
                let confirmation: String = "DELETE".to_owned();
                if typed == confirmation {
                    if zk {
                        let p = self.full_resource_path();
                        Action::Delete(p)
                    } else {
                        self.message = "Failed to get zookeeper client".to_owned();
                        self.state = TabState::Tab;
                        self.curr_resource = None;
                        Action::Idle
                    }
                } else {
                    self.message = "Incorrect confirmation string".to_owned();
                    Action::Idle
                }
            },
            _ => Action::Idle,
        }
    }

    /// One command against this tab: the transition table of the tab's
    /// mode, together with the store request the runner must perform.
    pub fn step(&mut self, zk: bool, cmd: Command) -> (a: Action)
        ensures
            final(self)@ == tab_step(old(self)@, zk, cmd).0,
            a@ == tab_step(old(self)@, zk, cmd).1,
            spec_tab_wf(old(self)@) ==> spec_tab_wf(final(self)@),
    {
        match self.state {
            TabState::Tab => self.step_browsing(zk, cmd),
            TabState::ReadNodeData => self.step_reading(cmd),
            TabState::EditCreateNodePath => self.step_create_path(zk, cmd),
            TabState::EditCreateNodeData => self.step_create_data(zk, cmd),
            TabState::EditNodeData => self.step_edit_data(zk, cmd),
            TabState::DeleteNode => self.step_delete(cmd),
            TabState::ConfirmDelete => self.step_confirm(zk, cmd),
        }
    }
}

/// The view of a children-listing answer.
pub open spec fn spec_children_result(r: Result<Vec<String>, String>) -> Result<
    Seq<Seq<char>>,
    Seq<char>,
> {
    match r {
        Ok(kids) => Ok(kids.deep_view()),
        Err(e) => Err(e@),
    }
}

/// How a children listing lands in the tab. An empty listing only leaves a
/// message; a failure leaves the listing as it was and writes the cause
/// into the message. A non-empty listing replaces the children and, for a
/// descend, first pushes the descended-into name onto the stack and clears
/// the leaf; the cursor goes to the first entry, or is kept (clamped) on a
/// revisit; the message names the listed path.
pub open spec fn tab_apply_children(
    t: TabView,
    ctx: ChildrenCtx,
    r: Result<Seq<Seq<char>>, Seq<char>>,
) -> TabView {
    match r {
        Ok(kids) => {
            if kids.len() == 0 {
                TabView { message: "Node does not have children nodes"@, ..t }
            } else {
                let based = if ctx is Descend {
                    match spec_selected_resource(t) {
                        Some(name) => TabView {
                            prev_resources: t.prev_resources.push(name),
                            curr_resource: None,
                            ..t
                        },
                        None => t,
                    }
                } else {
                    t
                };
                let sel = if ctx is Revisit {
                    spec_sel_clamp(based.selection, kids.len() as int)
                } else {
                    Some(0int)
                };
                let placed = TabView { tab_data: kids, selection: sel, ..based };
                TabView { message: "Full path : "@ + spec_tab_path(placed) + "\n"@, ..placed }
            }
        },
        Err(e) => TabView { message: "Failed to get children nodes : "@ + e, ..t },
    }
}

/// How a store answer lands in the tab, with the follow-up request the
/// runner must perform: a payload replacement is followed by a re-read of
/// the payload, a delete by a return to browsing without the leaf and a
/// re-listing of the remaining path. A failed listing or payload read
/// leaves the tab's data as it was and writes the cause into the message.
pub open spec fn tab_apply(t: TabView, zk: bool, ev: EventView) -> (TabView, ActionView) {
    match ev {
        EventView::Connected => (t, ActionView::Idle),
        EventView::Children(ctx, r) => (tab_apply_children(t, ctx, r), ActionView::Idle),
        EventView::Stat(r) => (
            match r {
                Ok(s) => TabView { current_node_stat: s, ..t },
                Err(_) => t,
            },
            ActionView::Idle,
        ),
        EventView::Data(r) => (
            match r {
                Ok(b) => TabView { node_data: NodeDataView::Raw(b), ..t },
                Err(e) => TabView { message: "Failed to get node data : "@ + e, ..t },
            },
            ActionView::Idle,
        ),
        EventView::Created(r) => (
            match r {
                Ok(p) => TabView { message: "Node "@ + p + " created successfully"@, ..t },
                Err(e) => TabView { message: "Node creation failed : "@ + e, ..t },
            },
            ActionView::Idle,
        ),
        EventView::DataSet(r) => {
            let told = match r {
                Ok(u) => TabView {
                    message: "Node "@ + spec_tab_path(t) + " data successfully updated"@,
                    ..t
                },
                Err(e) => TabView { message: "Node data update failed : "@ + e, ..t },
            };
            (
                told,
                if zk {
                    ActionView::FetchData(spec_tab_path(told))
                } else {
                    ActionView::Idle
                },
            )
        },
        EventView::Deleted(r) => {
            let told = match r {
                Ok(u) => TabView {
                    message: "Node "@ + spec_tab_path(t) + " successfully deleted"@,
                    ..t
                },
                Err(e) => TabView { message: "Delete node failed : "@ + e, ..t },
            };
            let home = TabView { state: TabState::Tab, curr_resource: None, ..told };
            (
                home,
                if zk {
                    ActionView::FetchChildren(spec_tab_path(home), ChildrenCtx::Revisit)
                } else {
                    ActionView::Idle
                },
            )
        },
    }
}

impl Tab {
    /// Applies a children listing as `tab_apply_children` says.
    fn apply_children(&mut self, ctx: ChildrenCtx, r: Result<Vec<String>, String>)
        ensures
            final(self)@ == tab_apply_children(old(self)@, ctx, spec_children_result(r)),
            spec_tab_wf(old(self)@) ==> spec_tab_wf(final(self)@),
    {
        match r {
            Ok(kids) => {
                if kids.len() == 0 {
                    self.message = "Node does not have children nodes".to_owned();
                } else {
                    match ctx {
                        ChildrenCtx::Descend => {
                            match self.selected_resource() {
                                Some(name) => {
                                    self.prev_resources.push(name);
                                    self.curr_resource = None;
                                    proof {
                                        assert(self.prev_resources.deep_view() =~= old(
                                            self,
                                        )@.prev_resources.push(
                                            spec_selected_resource(old(self)@)->Some_0,
                                        ));
                                    }
                                },
                                None => {},
                            }
                        },
                        _ => {},
                    }
                    let klen = kids.len();
                    match ctx {
                        ChildrenCtx::Revisit => {
                            match self.selection {
                                Some(i) => {
                                    if i >= klen {
                                        self.selection = Some(klen - 1);
                                    }
                                },
                                None => {},
                            }
                        },
                        _ => {
                            self.selection = Some(0);
                        },
                    }
                    self.tab_data = kids;
                    let p = self.full_resource_path();
                    self.message = "Full path : ".to_owned().concat(p.as_str()).concat("\n");
                    proof {
                        assert(final(self)@ =~= tab_apply_children(
                            old(self)@,
                            ctx,
                            spec_children_result(r),
                        ));
                    }
                }
            },
            Err(e) => {
                self.message = "Failed to get children nodes : ".to_owned().concat(e.as_str());
            },
        }
    }

    /// Applies one store answer to this tab, as `tab_apply` says, and hands
    /// back the follow-up request.
    pub fn apply(&mut self, zk: bool, ev: StoreEvent) -> (a: Action)
        ensures
            final(self)@ == tab_apply(old(self)@, zk, ev@).0,
            a@ == tab_apply(old(self)@, zk, ev@).1,
            spec_tab_wf(old(self)@) ==> spec_tab_wf(final(self)@),
    {
        match ev {
            StoreEvent::Connected => Action::Idle,
            StoreEvent::Children(ctx, r) => {
                self.apply_children(ctx, r);
                Action::Idle
            },
            StoreEvent::Stat(r) => {
                match r {
                    Ok(s) => {
                        self.current_node_stat = s;
                    },
                    Err(_) => {},
                }
                Action::Idle
            },
            StoreEvent::Data(r) => {
                match r {
                    Ok(b) => {
                        self.node_data = NodeData::Raw(b);
                    },
                    Err(e) => {
                        self.message = "Failed to get node data : ".to_owned().concat(e.as_str());
                    },
                }
                Action::Idle
            },
            StoreEvent::Created(r) => {
                match r {
                    Ok(p) => {
                        self.message = "Node ".to_owned().concat(p.as_str()).concat(
                            " created successfully",
                        );
                    },
                    Err(e) => {
                        self.message = "Node creation failed : ".to_owned().concat(e.as_str());
                    },
                }
                Action::Idle
            },
            StoreEvent::DataSet(r) => {
                match r {
                    Ok(_) => {
                        let p = self.full_resource_path();
                        self.message = "Node ".to_owned().concat(p.as_str()).concat(
                            " data successfully updated",
                        );
                    },
                    Err(e) => {
                        self.message = "Node data update failed : ".to_owned().concat(e.as_str());
                    },
                }
                if zk {
                    let p = self.full_resource_path();
                    Action::FetchData(p)
                } else {
                    Action::Idle
                }
            },
            StoreEvent::Deleted(r) => {
                match r {
                    Ok(_) => {
                        let p = self.full_resource_path();
                        self.message = "Node ".to_owned().concat(p.as_str()).concat(
                            " successfully deleted",
                        );
                    },
                    Err(e) => {
                        self.message = "Delete node failed : ".to_owned().concat(e.as_str());
                    },
                }
                self.state = TabState::Tab;
                self.curr_resource = None;
                if zk {
                    let p = self.full_resource_path();
                    Action::FetchChildren(p, ChildrenCtx::Revisit)
                } else {
                    Action::Idle
                }
            },
        }
    }
}

/// The cursor after `k` advances.
pub open spec fn spec_sel_next_iter(sel: Option<int>, len: int, k: nat) -> Option<int>
    decreases k,
{
    if k == 0 {
        sel
    } else {
        spec_sel_next(spec_sel_next_iter(sel, len, (k - 1) as nat), len)
    }
}

/// After `k` advances from index `i` the cursor sits at `i + k`, wrapped
/// past the end at most once.
proof fn lemma_sel_next_iter_adds(i: int, len: int, k: nat)
    requires
        0 <= i < len,
        k <= len,
    ensures
        spec_sel_next_iter(Some(i), len, k) == Some(
            if i + k < len {
                i + k
            } else {
                i + k - len
            },
        ),
    decreases k,
{
    if k > 0 {
        lemma_sel_next_iter_adds(i, len, (k - 1) as nat);
    }
}

/// Law: on a non-empty listing, advancing the cursor as many times as the
/// listing has entries returns it to its starting index.
pub proof fn lemma_selection_cycle(i: int, len: int)
    requires
        0 <= i < len,
    ensures
        spec_sel_next_iter(Some(i), len, len as nat) == Some(i),
{
    lemma_sel_next_iter_adds(i, len, len as nat);
}

/// Law: on a non-empty listing, retreating the cursor is the exact inverse
/// of advancing it.
pub proof fn lemma_selection_prev_inverse(i: int, len: int)
    requires
        0 <= i < len,
    ensures
        spec_sel_prev(spec_sel_next(Some(i), len), len) == Some(i),
        spec_sel_next(spec_sel_prev(Some(i), len), len) == Some(i),
{
}

/// Law: a delete is requested exactly when a submit in the confirmation
/// mode, with the session connected, finds the confirmation buffer holding
/// the confirmation string, letter for letter; on any other buffer the
/// mismatch message is set and nothing is requested of the store.
pub proof fn lemma_delete_needs_confirmation(t: TabView, zk: bool, cmd: Command)
    ensures
        (tab_step(t, zk, cmd).1 is Delete <==> (t.state == TabState::ConfirmDelete && cmd
            == Command::Submit && t.input_buf == "DELETE"@ && zk)),
        (t.state == TabState::ConfirmDelete && cmd == Command::Submit && t.input_buf != "DELETE"@)
            ==> (tab_step(t, zk, cmd).0.message == "Incorrect confirmation string"@ && tab_step(
            t,
            zk,
            cmd,
        ).1 == ActionView::Idle),
{
}

/// Law: a back command on a browsing tab with an empty stack and no leaf
/// changes nothing and requests nothing.
pub proof fn lemma_back_at_root_is_noop(t: TabView, zk: bool)
    requires
        t.state == TabState::Tab,
        t.prev_resources.len() == 0,
        t.curr_resource is None,
    ensures
        tab_step(t, zk, Command::Back).0 == t,
        tab_step(t, zk, Command::Back).1 == ActionView::Idle,
{
}

/// The state of a fresh tab.
pub open spec fn spec_tab_new() -> TabView {
    TabView {
        tab_data: Seq::empty(),
        selection: None,
        curr_resource: None,
        prev_resources: Seq::empty(),
        current_node_stat: None,
        message: Seq::empty(),
        node_data: NodeDataView::Raw(Seq::empty()),
        node_path_buf: Seq::empty(),
        node_data_buf: Seq::empty(),
        input_buf: Seq::empty(),
        state: TabState::Tab,
        toggle_stats_auto_load: true,
    }
}

} // verus!
