//! The session: top-level mode, the tab collection with its active index,
//! and the dispatch of commands and store events to the active tab.

pub mod connection;
pub mod state;

use vstd::prelude::*;
use vstd::pervasive::VecAdditionalExecFns;

use crate::app::connection::{spec_connection_string, Connection, ConnectionView};
use crate::app::state::{AppState, TabState};
use crate::command::{Action, ActionView, ChildrenCtx, Command, StoreEvent, EventView};
use crate::stat::spec_stat_lines;
use crate::tab::{
    opt_str_view, spec_buf_backspace, spec_selected_resource, spec_tab_path, spec_tab_wf, tab_apply,
    tab_step, Tab, TabView,
};
use crate::text::{pop_char, push_char};

verus! {

/// The session: its top-level mode, the connection it talks to, whether the
/// store client is attached, and the tabs with the active index.
pub struct App {
    /// The top-level mode.
    pub state: AppState,
    /// The configured store address, if any.
    pub connection: Option<Connection>,
    /// The editable connection string.
    pub connection_input: String,
    /// Whether a store client is attached; before a successful connect
    /// every store request is answered with a failure message instead.
    pub zk_present: bool,
    /// The index of the active tab.
    pub curr_tab: usize,
    /// The browsing contexts.
    pub tabs: Vec<Tab>,
}

/// The mathematical shadow of `App`.
#[verifier::ext_equal]
pub ghost struct AppView {
    pub state: AppState,
    pub connection: Option<ConnectionView>,
    pub connection_input: Seq<char>,
    pub zk_present: bool,
    pub curr_tab: int,
    pub tabs: Seq<TabView>,
}

impl View for App {
    type V = AppView;

    open spec fn view(&self) -> AppView {
        AppView {
            state: self.state,
            connection: match self.connection {
                Some(ref c) => Some(c@),
                None => None,
            },
            connection_input: self.connection_input@,
            zk_present: self.zk_present,
            curr_tab: self.curr_tab as int,
            tabs: self.tabs.deep_view(),
        }
    }
}

impl DeepView for Tab {
    type V = TabView;

    open spec fn deep_view(&self) -> TabView {
        self.view()
    }
}

/// The session's invariant: at least one tab, the active index in bounds,
/// every tab well formed.
pub open spec fn spec_app_wf(a: AppView) -> bool {
    &&& a.tabs.len() >= 1
    &&& 0 <= a.curr_tab < a.tabs.len()
    &&& forall|i: int| 0 <= i < a.tabs.len() ==> spec_tab_wf(#[trigger] a.tabs[i])
}

/// Tab switching saturates: one step towards the last tab, never past it.
pub open spec fn spec_next_tab(i: int, len: int) -> int {
    if i + 1 < len {
        i + 1
    } else {
        len - 1
    }
}

/// Tab switching saturates: one step towards the first tab, never past it.
pub open spec fn spec_prev_tab(i: int) -> int {
    if i > 0 {
        i - 1
    } else {
        0
    }
}

/// The state of a fresh session around the given connection: three fresh
/// tabs, the first active, on the connection screen, no client attached.
pub open spec fn spec_app_new(c: ConnectionView) -> AppView {
    AppView {
        state: AppState::EstablishingConnection,
        connection: Some(c),
        connection_input: spec_connection_string(c),
        zk_present: false,
        curr_tab: 0,
        tabs: seq![
            crate::tab::spec_tab_new(),
            crate::tab::spec_tab_new(),
            crate::tab::spec_tab_new(),
        ],
    }
}

/// One command against the session: the connection screens handle their own
/// commands; in tab mode, quitting and tab switching are collection-level
/// (and only while the active tab is browsing), everything else goes to the
/// active tab's transition table.
pub open spec fn app_step(a: AppView, cmd: Command) -> (AppView, ActionView) {
    match a.state {
        AppState::EstablishingConnection => match cmd {
            Command::Quit => (a, ActionView::Quit),
            Command::Submit => (a, ActionView::Connect(a.connection_input)),
            Command::EditConnection => (
                AppView { state: AppState::EditingConnection, ..a },
                ActionView::Idle,
            ),
            _ => (a, ActionView::Idle),
        },
        AppState::EditingConnection => match cmd {
            Command::Cancel => (
                AppView { state: AppState::EstablishingConnection, ..a },
                ActionView::Idle,
            ),
            Command::Submit => (
                AppView { state: AppState::EstablishingConnection, ..a },
                ActionView::Idle,
            ),
            Command::CharInsert(c) => (
                AppView { connection_input: a.connection_input.push(c), ..a },
                ActionView::Idle,
            ),
            Command::Backspace => (
                AppView { connection_input: spec_buf_backspace(a.connection_input), ..a },
                ActionView::Idle,
            ),
            _ => (a, ActionView::Idle),
        },
        AppState::Tab => {
            if 0 <= a.curr_tab < a.tabs.len() {
                let t = a.tabs[a.curr_tab];
                match cmd {
                    Command::Quit => if t.state == TabState::Tab {
                        (a, ActionView::Quit)
                    } else {
                        (a, ActionView::Idle)
                    },
                    Command::NextTab => if t.state == TabState::Tab {
                        let moved = AppView {
                            curr_tab: spec_next_tab(a.curr_tab, a.tabs.len() as int),
                            ..a
                        };
                        (
                            moved,
                            if a.zk_present {
                                ActionView::FetchChildren(
                                    spec_tab_path(moved.tabs[moved.curr_tab]),
                                    ChildrenCtx::Revisit,
                                )
                            } else {
                                ActionView::Idle
                            },
                        )
                    } else {
                        (a, ActionView::Idle)
                    },
                    Command::PrevTab => if t.state == TabState::Tab {
                        let moved = AppView { curr_tab: spec_prev_tab(a.curr_tab), ..a };
                        (
                            moved,
                            if a.zk_present {
                                ActionView::FetchChildren(
                                    spec_tab_path(moved.tabs[moved.curr_tab]),
                                    ChildrenCtx::Revisit,
                                )
                            } else {
                                ActionView::Idle
                            },
                        )
                    } else {
                        (a, ActionView::Idle)
                    },
                    _ => {
                        let stepped = tab_step(t, a.zk_present, cmd);
                        (
                            AppView { tabs: a.tabs.update(a.curr_tab, stepped.0), ..a },
                            stepped.1,
                        )
                    },
                }
            } else {
                (a, ActionView::Idle)
            }
        },
    }
}

/// One store event against the session: a successful connect attaches the
/// client, enters tab mode and asks for the root listing; every other
/// answer lands in the active tab.
pub open spec fn app_apply(a: AppView, ev: EventView) -> (AppView, ActionView) {
    match ev {
        EventView::Connected => {
            let on = AppView { zk_present: true, state: AppState::Tab, ..a };
            if 0 <= a.curr_tab < a.tabs.len() {
                (
                    on,
                    ActionView::FetchChildren(
                        spec_tab_path(on.tabs[on.curr_tab]),
                        ChildrenCtx::Refresh,
                    ),
                )
            } else {
                (on, ActionView::Idle)
            }
        },
        _ => {
            if 0 <= a.curr_tab < a.tabs.len() {
                let applied = tab_apply(a.tabs[a.curr_tab], a.zk_present, ev);
                (
                    AppView { tabs: a.tabs.update(a.curr_tab, applied.0), ..a },
                    applied.1,
                )
            } else {
                (a, ActionView::Idle)
            }
        },
    }
}

impl App {
    /// A fresh session around the given connection.
    pub fn new(connection: Connection) -> (r: Self)
        ensures
            r@ == spec_app_new(connection@),
            spec_app_wf(r@),
    {
        let connection_input = connection.connection_string();
        let mut tabs: Vec<Tab> = Vec::new();
        tabs.push(Tab::new());
        tabs.push(Tab::new());
        tabs.push(Tab::new());
        let r = App {
            state: AppState::EstablishingConnection,
            connection: Some(connection),
            connection_input,
            zk_present: false,
            curr_tab: 0,
            tabs,
        };
        proof {
            assert(r@.tabs =~= spec_app_new(connection@).tabs);
            assert(r@ =~= spec_app_new(connection@));
        }
        r
    }

    /// The configured connection written as "addr:port", or nothing when no
    /// connection is configured.
    pub fn connection_str(&self) -> (r: String)
        ensures
            r@ == (match self@.connection {
                Some(c) => spec_connection_string(c),
                None => Seq::<char>::empty(),
            }),
    {
        match self.connection {
            Some(ref c) => c.connection_string(),
            None => String::new(),
        }
    }

    /// The active tab.
    pub fn curr_tab(&self) -> (r: &Tab)
        requires
            spec_app_wf(self@),
        ensures
            r@ == self@.tabs[self@.curr_tab],
    {
        &self.tabs[self.curr_tab]
    }

    /// Switches one tab to the right, saturating at the last tab.
    pub fn next_tab(&mut self)
        requires
            spec_app_wf(old(self)@),
        ensures
            final(self)@ == (AppView {
                curr_tab: spec_next_tab(old(self)@.curr_tab, old(self)@.tabs.len() as int),
                ..old(self)@
            }),
            spec_app_wf(final(self)@),
    {
        let len = self.tabs.len();
        proof {
            assert(len == self@.tabs.len());
        }
        if self.curr_tab < len - 1 {
            self.curr_tab = self.curr_tab + 1;
        } else {
            self.curr_tab = len - 1;
        }
    }

    /// Switches one tab to the left, saturating at the first tab.
    pub fn previous_tab(&mut self)
        requires
            spec_app_wf(old(self)@),
        ensures
            final(self)@ == (AppView { curr_tab: spec_prev_tab(old(self)@.curr_tab), ..old(self)@ }),
            spec_app_wf(final(self)@),
    {
        if self.curr_tab > 0 {
            self.curr_tab = self.curr_tab - 1;
        }
    }

    /// Advances the active tab's cursor circularly over its listing.
    pub fn next(&mut self)
        requires
            spec_app_wf(old(self)@),
        ensures
            final(self)@ == (AppView {
                tabs: old(self)@.tabs.update(
                    old(self)@.curr_tab,
                    TabView {
                        selection: crate::tab::spec_sel_next(
                            old(self)@.tabs[old(self)@.curr_tab].selection,
                            old(self)@.tabs[old(self)@.curr_tab].tab_data.len() as int,
                        ),
                        ..old(self)@.tabs[old(self)@.curr_tab]
                    },
                ),
                ..old(self)@
            }),
            spec_app_wf(final(self)@),
    {
        let mut t = Tab::new();
        let idx = self.curr_tab;
        self.tabs.set_and_swap(idx, &mut t);
        t.next();
        let ghost stepped = t@;
        self.tabs.set_and_swap(idx, &mut t);
        proof {
            let pre = old(self)@;
            assert(spec_tab_wf(pre.tabs[pre.curr_tab]));
            assert(self.tabs.deep_view() =~= pre.tabs.update(pre.curr_tab, stepped));
            assert forall|i: int| 0 <= i < self@.tabs.len() implies spec_tab_wf(
                #[trigger] self@.tabs[i],
            ) by {
                if i != pre.curr_tab {
                    assert(self@.tabs[i] == pre.tabs[i]);
                }
            }
            assert(self@ =~= (AppView { tabs: pre.tabs.update(pre.curr_tab, stepped), ..pre }));
        }
    }

    /// Retreats the active tab's cursor circularly over its listing.
    pub fn previous(&mut self)
        requires
            spec_app_wf(old(self)@),
        ensures
            final(self)@ == (AppView {
                tabs: old(self)@.tabs.update(
                    old(self)@.curr_tab,
                    TabView {
                        selection: crate::tab::spec_sel_prev(
                            old(self)@.tabs[old(self)@.curr_tab].selection,
                            old(self)@.tabs[old(self)@.curr_tab].tab_data.len() as int,
                        ),
                        ..old(self)@.tabs[old(self)@.curr_tab]
                    },
                ),
                ..old(self)@
            }),
            spec_app_wf(final(self)@),
    {
        let mut t = Tab::new();
        let idx = self.curr_tab;
        self.tabs.set_and_swap(idx, &mut t);
        t.previous();
        let ghost stepped = t@;
        self.tabs.set_and_swap(idx, &mut t);
        proof {
            let pre = old(self)@;
            assert(spec_tab_wf(pre.tabs[pre.curr_tab]));
            assert(self.tabs.deep_view() =~= pre.tabs.update(pre.curr_tab, stepped));
            assert forall|i: int| 0 <= i < self@.tabs.len() implies spec_tab_wf(
                #[trigger] self@.tabs[i],
            ) by {
                if i != pre.curr_tab {
                    assert(self@.tabs[i] == pre.tabs[i]);
                }
            }
            assert(self@ =~= (AppView { tabs: pre.tabs.update(pre.curr_tab, stepped), ..pre }));
        }
    }

    /// The "/name" of the child under the active tab's cursor, if any.
    pub fn selected_resource(&self) -> (r: Option<String>)
        requires
            spec_app_wf(self@),
        ensures
            opt_str_view(r) == spec_selected_resource(self@.tabs[self@.curr_tab]),
    {
        self.tabs[self.curr_tab].selected_resource()
    }

    /// Sets the active tab's current leaf.
    pub fn set_current_tab_path(&mut self, path: Option<String>)
        requires
            spec_app_wf(old(self)@),
        ensures
            final(self)@ == (AppView {
                tabs: old(self)@.tabs.update(
                    old(self)@.curr_tab,
                    TabView {
                        curr_resource: opt_str_view(path),
                        ..old(self)@.tabs[old(self)@.curr_tab]
                    },
                ),
                ..old(self)@
            }),
            spec_app_wf(final(self)@),
    {
        let mut t = Tab::new();
        let idx = self.curr_tab;
        self.tabs.set_and_swap(idx, &mut t);
        t.curr_resource = path;
        let ghost stepped = t@;
        self.tabs.set_and_swap(idx, &mut t);
        proof {
            let pre = old(self)@;
            assert(spec_tab_wf(pre.tabs[pre.curr_tab]));
            assert(self.tabs.deep_view() =~= pre.tabs.update(pre.curr_tab, stepped));
            assert forall|i: int| 0 <= i < self@.tabs.len() implies spec_tab_wf(
                #[trigger] self@.tabs[i],
            ) by {
                if i != pre.curr_tab {
                    assert(self@.tabs[i] == pre.tabs[i]);
                }
            }
            assert(self@ =~= (AppView { tabs: pre.tabs.update(pre.curr_tab, stepped), ..pre }));
        }
    }

    /// The absolute path of the active tab's current node.
    pub fn tab_full_resource_path(&self) -> (r: String)
        requires
            spec_app_wf(self@),
        ensures
            r@ == spec_tab_path(self@.tabs[self@.curr_tab]),
    {
        self.tabs[self.curr_tab].full_resource_path()
    }

    /// The children listing of the active tab.
    pub fn tab_data(&self) -> (r: &Vec<String>)
        requires
            spec_app_wf(self@),
        ensures
            r.deep_view() == self@.tabs[self@.curr_tab].tab_data,
    {
        &self.tabs[self.curr_tab].tab_data
    }

    /// The display lines of the active tab's metadata snapshot; empty when
    /// no snapshot is held.
    pub fn stat_list(&self) -> (r: Vec<String>)
        requires
            spec_app_wf(self@),
        ensures
            r.deep_view() == (match self@.tabs[self@.curr_tab].current_node_stat {
                Some(s) => spec_stat_lines(s),
                None => Seq::<Seq<char>>::empty(),
            }),
    {
        match self.tabs[self.curr_tab].current_node_stat {
            Some(s) => s.lines(),
            None => {
                let r: Vec<String> = Vec::new();
                proof {
                    assert(r.deep_view() =~= Seq::<Seq<char>>::empty());
                }
                r
            },
        }
    }

    /// One command against the session, as `app_step` says: the session
    /// moves, and the returned action is what the runner must now perform
    /// against the store.
    pub fn handle_command(&mut self, cmd: Command) -> (a: Action)
        requires
            spec_app_wf(old(self)@),
        ensures
            final(self)@ == app_step(old(self)@, cmd).0,
            a@ == app_step(old(self)@, cmd).1,
            spec_app_wf(final(self)@),
    {
        match self.state {
            AppState::EstablishingConnection => match cmd {
                Command::Quit => Action::Quit,
                Command::Submit => Action::Connect(self.connection_input.clone()),
                Command::EditConnection => {
                    self.state = AppState::EditingConnection;
                    Action::Idle
                },
                _ => Action::Idle,
            },
            AppState::EditingConnection => match cmd {
                Command::Cancel => {
                    self.state = AppState::EstablishingConnection;
                    Action::Idle
                },
                Command::Submit => {
                    self.state = AppState::EstablishingConnection;
                    Action::Idle
                },
                Command::CharInsert(c) => {
                    push_char(&mut self.connection_input, c);
                    Action::Idle
                },
                Command::Backspace => {
                    pop_char(&mut self.connection_input);
                    Action::Idle
                },
                _ => Action::Idle,
            },
            AppState::Tab => match cmd {
                Command::Quit => {
                    if self.tabs[self.curr_tab].state == TabState::Tab {
                        Action::Quit
                    } else {
                        Action::Idle
                    }
                },
                Command::NextTab => {
                    if self.tabs[self.curr_tab].state == TabState::Tab {
                        self.next_tab();
                        if self.zk_present {
                            let p = self.tabs[self.curr_tab].full_resource_path();
                            Action::FetchChildren(p, ChildrenCtx::Revisit)
                        } else {
                            Action::Idle
                        }
                    } else {
                        Action::Idle
                    }
                },
                Command::PrevTab => {
                    if self.tabs[self.curr_tab].state == TabState::Tab {
                        self.previous_tab();
                        if self.zk_present {
                            let p = self.tabs[self.curr_tab].full_resource_path();
                            Action::FetchChildren(p, ChildrenCtx::Revisit)
                        } else {
                            Action::Idle
                        }
                    } else {
                        Action::Idle
                    }
                },
                _ => {
                    let mut t = Tab::new();
                    let idx = self.curr_tab;
                    self.tabs.set_and_swap(idx, &mut t);
                    let act = t.step(self.zk_present, cmd);
                    let ghost stepped = t@;
                    self.tabs.set_and_swap(idx, &mut t);
                    proof {
                        let pre = old(self)@;
                        assert(spec_tab_wf(pre.tabs[pre.curr_tab]));
                        assert(self.tabs.deep_view() =~= pre.tabs.update(pre.curr_tab, stepped));
                        assert forall|i: int| 0 <= i < self@.tabs.len() implies spec_tab_wf(
                            #[trigger] self@.tabs[i],
                        ) by {
                            if i != pre.curr_tab {
                                assert(self@.tabs[i] == pre.tabs[i]);
                            }
                        }
                        assert(self@ =~= app_step(pre, cmd).0);
                    }
                    act
                },
            },
        }
    }

    /// One store event against the session, as `app_apply` says: the
    /// answer lands, and the returned action is the follow-up request.
    pub fn handle_event(&mut self, ev: StoreEvent) -> (a: Action)
        requires
            spec_app_wf(old(self)@),
        ensures
            final(self)@ == app_apply(old(self)@, ev@).0,
            a@ == app_apply(old(self)@, ev@).1,
            spec_app_wf(final(self)@),
    {
        match ev {
            StoreEvent::Connected => {
                self.zk_present = true;
                self.state = AppState::Tab;
                let p = self.tabs[self.curr_tab].full_resource_path();
                Action::FetchChildren(p, ChildrenCtx::Refresh)
            },
            _ => {
                let mut t = Tab::new();
                let idx = self.curr_tab;
                self.tabs.set_and_swap(idx, &mut t);
                let act = t.apply(self.zk_present, ev);
                let ghost stepped = t@;
                self.tabs.set_and_swap(idx, &mut t);
                proof {
                    let pre = old(self)@;
                    assert(spec_tab_wf(pre.tabs[pre.curr_tab]));
                    assert(self.tabs.deep_view() =~= pre.tabs.update(pre.curr_tab, stepped));
                    assert forall|i: int| 0 <= i < self@.tabs.len() implies spec_tab_wf(
                        #[trigger] self@.tabs[i],
                    ) by {
                        if i != pre.curr_tab {
                            assert(self@.tabs[i] == pre.tabs[i]);
                        }
                    }
                    assert(self@ =~= app_apply(pre, ev@).0);
                }
                act
            },
        }
    }
}

/// The active index after a sequence of tab switches; `true` stands for a
/// switch right, `false` for a switch left.
pub open spec fn spec_tab_moves(i: int, len: int, moves: Seq<bool>) -> int
    decreases moves.len(),
{
    if moves.len() == 0 {
        i
    } else {
        let before = spec_tab_moves(i, len, moves.drop_last());
        if moves.last() {
            spec_next_tab(before, len)
        } else {
            spec_prev_tab(before)
        }
    }
}

/// Law: from any in-bounds starting index, any sequence of tab switches
/// keeps the active index within the collection.
pub proof fn lemma_tab_moves_in_bounds(i: int, len: int, moves: Seq<bool>)
    requires
        0 <= i < len,
    ensures
        0 <= spec_tab_moves(i, len, moves) < len,
    decreases moves.len(),
{
    if moves.len() > 0 {
        lemma_tab_moves_in_bounds(i, len, moves.drop_last());
    }
}

/// Law: tab switching saturates instead of wrapping: at the last tab a
/// switch right stays put, at the first tab a switch left stays put.
pub proof fn lemma_tab_switch_saturates(len: int)
    requires
        len >= 1,
    ensures
        spec_next_tab(len - 1, len) == len - 1,
        spec_prev_tab(0) == 0,
{
}

/// Law: across the whole session, a delete is requested exactly when the
/// active tab awaits confirmation, a submit arrives, the confirmation
/// buffer holds the confirmation string letter for letter, and the store
/// client is attached; no other command in any mode reaches the delete.
pub proof fn lemma_app_delete_needs_confirmation(a: AppView, cmd: Command)
    requires
        spec_app_wf(a),
    ensures
        (app_step(a, cmd).1 is Delete <==> (a.state == AppState::Tab
            && a.tabs[a.curr_tab].state == TabState::ConfirmDelete && cmd == Command::Submit
            && a.tabs[a.curr_tab].input_buf == "DELETE"@ && a.zk_present)),
{
    if a.state == AppState::Tab {
        crate::tab::lemma_delete_needs_confirmation(a.tabs[a.curr_tab], a.zk_present, cmd);
    }
}

} // verus!
