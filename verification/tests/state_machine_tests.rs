//! The per-tab state machine: command flows, confirmation-gated delete,
//! store events and their messages.

use zk_browser::app::connection::Connection;
use zk_browser::app::state::{AppState, TabState};
use zk_browser::app::App;
use zk_browser::command::{Action, ChildrenCtx, Command, StoreEvent};
use zk_browser::node_data::NodeData;
use zk_browser::stat::NodeStat;

fn local_connection() -> Connection {
    Connection { addr: "127.0.0.1".to_owned(), port: 2181 }
}

fn connected_app_with_children(children: &[&str]) -> App {
    let mut app = App::new(local_connection());
    app.handle_event(StoreEvent::Connected);
    let listed: Vec<String> = children.iter().map(|c| (*c).to_owned()).collect();
    app.handle_event(StoreEvent::Children(ChildrenCtx::Refresh, Ok(listed)));
    app
}

fn sample_stat() -> NodeStat {
    NodeStat {
        czxid: 5,
        mzxid: -3,
        ctime: 1700000000,
        mtime: 1700000001,
        version: 2,
        cversion: 0,
        aversion: 0,
        ephemeral_owner: 0,
        data_length: 11,
        num_children: 4,
        pzxid: 5,
    }
}

#[test]
fn connect_enters_tab_mode_and_lists_the_root() {
    let mut app = App::new(local_connection());
    assert_eq!(app.state, AppState::EstablishingConnection);
    assert!(!app.zk_present);
    let act = app.handle_event(StoreEvent::Connected);
    assert_eq!(app.state, AppState::Tab);
    assert!(app.zk_present);
    assert_eq!(
        act,
        Action::FetchChildren("/".to_owned(), ChildrenCtx::Refresh)
    );
}

#[test]
fn fresh_listing_selects_the_first_entry_and_reports_the_path() {
    let app = connected_app_with_children(&["zookeeper"]);
    assert_eq!(app.tabs[0].tab_data, vec!["zookeeper".to_owned()]);
    assert_eq!(app.tabs[0].selection, Some(0));
    assert_eq!(app.tabs[0].message, "Full path : /\n");
}

#[test]
fn empty_listing_only_sets_the_message() {
    let mut app = App::new(local_connection());
    app.handle_event(StoreEvent::Connected);
    app.handle_event(StoreEvent::Children(ChildrenCtx::Refresh, Ok(Vec::new())));
    assert_eq!(app.tabs[0].tab_data, Vec::<String>::new());
    assert_eq!(app.tabs[0].selection, None);
    assert_eq!(app.tabs[0].message, "Node does not have children nodes");
}

#[test]
fn failed_listing_keeps_the_listing_and_reports_the_cause() {
    let mut app = connected_app_with_children(&["a"]);
    let before_children = app.tabs[0].tab_data.clone();
    let before_selection = app.tabs[0].selection;
    app.handle_event(StoreEvent::Children(
        ChildrenCtx::Refresh,
        Err("connection loss".to_owned()),
    ));
    assert_eq!(app.tabs[0].tab_data, before_children);
    assert_eq!(app.tabs[0].selection, before_selection);
    assert_eq!(
        app.tabs[0].message,
        "Failed to get children nodes : connection loss"
    );
}

#[test]
fn failed_payload_read_keeps_the_payload_and_reports_the_cause() {
    let mut app = connected_app_with_children(&["a"]);
    app.tabs[0].node_data = NodeData::Raw(b"kept".to_vec());
    app.handle_event(StoreEvent::Data(Err("no node".to_owned())));
    assert_eq!(app.tabs[0].node_data, NodeData::Raw(b"kept".to_vec()));
    assert_eq!(app.tabs[0].message, "Failed to get node data : no node");
}

#[test]
fn move_down_sets_the_leaf_and_asks_for_metadata() {
    let mut app = connected_app_with_children(&["a", "b"]);
    let act = app.handle_command(Command::MoveDown);
    assert_eq!(app.tabs[0].selection, Some(1));
    assert_eq!(app.tabs[0].curr_resource, Some("/b".to_owned()));
    assert_eq!(act, Action::FetchStat("/b".to_owned()));
}

#[test]
fn toggling_stat_auto_load_off_clears_the_snapshot() {
    let mut app = connected_app_with_children(&["a"]);
    app.tabs[0].current_node_stat = Some(sample_stat());
    assert!(app.tabs[0].toggle_stats_auto_load);
    let act = app.handle_command(Command::ToggleStatAutoLoad);
    assert!(!app.tabs[0].toggle_stats_auto_load);
    assert_eq!(app.tabs[0].current_node_stat, None);
    assert_eq!(act, Action::Idle);
    let act_on = app.handle_command(Command::ToggleStatAutoLoad);
    assert!(app.tabs[0].toggle_stats_auto_load);
    assert_eq!(act_on, Action::FetchStat("/".to_owned()));
}

#[test]
fn stat_answer_lands_in_the_tab() {
    let mut app = connected_app_with_children(&["a"]);
    app.handle_event(StoreEvent::Stat(Ok(Some(sample_stat()))));
    assert_eq!(app.tabs[0].current_node_stat, Some(sample_stat()));
    app.handle_event(StoreEvent::Stat(Ok(None)));
    assert_eq!(app.tabs[0].current_node_stat, None);
}

#[test]
fn stat_list_writes_one_line_per_field() {
    let mut app = connected_app_with_children(&["a"]);
    assert_eq!(app.stat_list(), Vec::<String>::new());
    app.tabs[0].current_node_stat = Some(sample_stat());
    let lines = app.stat_list();
    assert_eq!(lines.len(), 11);
    assert_eq!(lines[0], "\t czxid : 5");
    assert_eq!(lines[1], "\t mzxid : -3");
    assert_eq!(lines[8], "\t data length : 11");
    assert_eq!(lines[10], "\t pzxid : 5");
}

#[test]
fn descend_pushes_the_selected_name_and_selects_the_first_child() {
    let mut app = connected_app_with_children(&["zookeeper"]);
    app.handle_command(Command::MoveDown);
    let act = app.handle_command(Command::Enter);
    assert_eq!(
        act,
        Action::FetchChildren("/zookeeper".to_owned(), ChildrenCtx::Descend)
    );
    let follow = app.handle_event(StoreEvent::Children(
        ChildrenCtx::Descend,
        Ok(vec!["config".to_owned(), "quota".to_owned()]),
    ));
    assert_eq!(follow, Action::Idle);
    assert_eq!(app.tabs[0].prev_resources, vec!["/zookeeper".to_owned()]);
    assert_eq!(app.tabs[0].curr_resource, None);
    assert_eq!(app.tabs[0].selection, Some(0));
    assert_eq!(
        app.tabs[0].tab_data,
        vec!["config".to_owned(), "quota".to_owned()]
    );
    assert_eq!(app.tabs[0].message, "Full path : /zookeeper\n");
}

#[test]
fn descend_into_a_leaf_node_only_reports_it() {
    let mut app = connected_app_with_children(&["empty"]);
    app.handle_command(Command::MoveDown);
    app.handle_command(Command::Enter);
    app.handle_event(StoreEvent::Children(ChildrenCtx::Descend, Ok(Vec::new())));
    assert_eq!(app.tabs[0].prev_resources, Vec::<String>::new());
    assert_eq!(app.tabs[0].message, "Node does not have children nodes");
}

#[test]
fn back_at_the_root_is_a_noop() {
    let mut app = connected_app_with_children(&["a"]);
    let children = app.tabs[0].tab_data.clone();
    let message = app.tabs[0].message.clone();
    let act = app.handle_command(Command::Back);
    assert_eq!(act, Action::Idle);
    assert_eq!(app.tabs[0].prev_resources, Vec::<String>::new());
    assert_eq!(app.tabs[0].curr_resource, None);
    assert_eq!(app.tabs[0].tab_data, children);
    assert_eq!(app.tabs[0].message, message);
    assert_eq!(app.state, AppState::Tab);
}

#[test]
fn back_prefers_dropping_the_leaf_then_pops_the_stack() {
    let mut app = connected_app_with_children(&["a"]);
    app.tabs[0].prev_resources = vec!["/a".to_owned()];
    app.tabs[0].curr_resource = Some("/b".to_owned());
    let act = app.handle_command(Command::Back);
    assert_eq!(app.tabs[0].curr_resource, None);
    assert_eq!(app.tabs[0].prev_resources, vec!["/a".to_owned()]);
    assert_eq!(
        act,
        Action::FetchChildren("/a".to_owned(), ChildrenCtx::Refresh)
    );
    let act2 = app.handle_command(Command::Back);
    assert_eq!(app.tabs[0].prev_resources, Vec::<String>::new());
    assert_eq!(
        act2,
        Action::FetchChildren("/".to_owned(), ChildrenCtx::Refresh)
    );
}

#[test]
fn open_read_asks_for_the_payload() {
    let mut app = connected_app_with_children(&["a"]);
    app.handle_command(Command::MoveDown);
    let act = app.handle_command(Command::OpenRead);
    assert_eq!(app.tabs[0].state, TabState::ReadNodeData);
    assert_eq!(act, Action::FetchData("/a".to_owned()));
    app.handle_event(StoreEvent::Data(Ok(b"payload".to_vec())));
    assert_eq!(app.tabs[0].node_data, NodeData::Raw(b"payload".to_vec()));
}

#[test]
fn reading_converts_between_representations() {
    let mut app = connected_app_with_children(&["a"]);
    app.tabs[0].state = TabState::ReadNodeData;
    app.tabs[0].node_data = NodeData::Raw(b"[1, 2]".to_vec());
    app.handle_command(Command::AsJson);
    assert_eq!(app.tabs[0].node_data, NodeData::Json("[1,2]".to_owned()));
    app.handle_command(Command::AsString);
    assert_eq!(app.tabs[0].node_data, NodeData::Text("[1,2]".to_owned()));
    app.handle_command(Command::AsRaw);
    assert_eq!(app.tabs[0].node_data, NodeData::Raw(b"[1,2]".to_vec()));
    app.handle_command(Command::Cancel);
    assert_eq!(app.tabs[0].state, TabState::Tab);
}

#[test]
fn edit_seeds_the_buffer_with_the_textual_payload() {
    let mut app = connected_app_with_children(&["a"]);
    app.tabs[0].state = TabState::ReadNodeData;
    app.tabs[0].node_data = NodeData::Raw(b"hi".to_vec());
    app.handle_command(Command::Edit);
    assert_eq!(app.tabs[0].state, TabState::EditNodeData);
    assert_eq!(app.tabs[0].node_data, NodeData::Text("hi".to_owned()));
    assert_eq!(app.tabs[0].node_data_buf, "hi");
}

#[test]
fn submitting_an_edit_sends_the_bytes_and_reloads() {
    let mut app = connected_app_with_children(&["a"]);
    app.tabs[0].curr_resource = Some("/a".to_owned());
    app.tabs[0].state = TabState::EditNodeData;
    app.tabs[0].node_data_buf = "hi".to_owned();
    app.handle_command(Command::CharInsert('!'));
    assert_eq!(app.tabs[0].node_data_buf, "hi!");
    let act = app.handle_command(Command::Submit);
    assert_eq!(act, Action::SetData("/a".to_owned(), b"hi!".to_vec()));
    assert_eq!(app.tabs[0].node_data_buf, "");
    assert_eq!(app.tabs[0].state, TabState::ReadNodeData);
    let follow = app.handle_event(StoreEvent::DataSet(Ok(())));
    assert_eq!(app.tabs[0].message, "Node /a data successfully updated");
    assert_eq!(follow, Action::FetchData("/a".to_owned()));
}

#[test]
fn failed_edit_reports_the_cause() {
    let mut app = connected_app_with_children(&["a"]);
    let follow = app.handle_event(StoreEvent::DataSet(Err("bad version".to_owned())));
    assert_eq!(app.tabs[0].message, "Node data update failed : bad version");
    assert_eq!(follow, Action::FetchData("/".to_owned()));
}

#[test]
fn cancelling_an_edit_reloads_the_stored_payload() {
    let mut app = connected_app_with_children(&["a"]);
    app.tabs[0].state = TabState::EditNodeData;
    let act = app.handle_command(Command::Cancel);
    assert_eq!(app.tabs[0].state, TabState::ReadNodeData);
    assert_eq!(act, Action::FetchData("/".to_owned()));
}

#[test]
fn create_form_edits_both_fields_and_submits() {
    let mut app = connected_app_with_children(&["a"]);
    app.handle_command(Command::OpenCreate);
    assert_eq!(app.tabs[0].state, TabState::EditCreateNodePath);
    assert_eq!(app.tabs[0].node_path_buf, "/");
    assert_eq!(app.tabs[0].node_data_buf, "");
    app.handle_command(Command::CharInsert('a'));
    assert_eq!(app.tabs[0].node_path_buf, "/a");
    app.handle_command(Command::SwitchField);
    assert_eq!(app.tabs[0].state, TabState::EditCreateNodeData);
    app.handle_command(Command::CharInsert('h'));
    app.handle_command(Command::CharInsert('i'));
    assert_eq!(app.tabs[0].node_data_buf, "hi");
    app.handle_command(Command::Backspace);
    assert_eq!(app.tabs[0].node_data_buf, "h");
    app.handle_command(Command::SwitchField);
    assert_eq!(app.tabs[0].state, TabState::EditCreateNodePath);
    let act = app.handle_command(Command::Submit);
    assert_eq!(act, Action::Create("/a".to_owned(), b"h".to_vec()));
    assert_eq!(app.tabs[0].node_path_buf, "/a");
    assert_eq!(app.tabs[0].node_data_buf, "h");
}

#[test]
fn create_submit_reports_the_created_path() {
    let mut app = connected_app_with_children(&["a"]);
    app.tabs[0].state = TabState::EditCreateNodePath;
    app.tabs[0].node_path_buf = "/a/b".to_owned();
    app.tabs[0].node_data_buf = "hello".to_owned();
    let act = app.handle_command(Command::Submit);
    assert_eq!(act, Action::Create("/a/b".to_owned(), b"hello".to_vec()));
    app.handle_event(StoreEvent::Created(Ok("/a/b".to_owned())));
    assert_eq!(app.tabs[0].message, "Node /a/b created successfully");
}

#[test]
fn failed_create_reports_the_cause_and_keeps_the_buffers() {
    let mut app = connected_app_with_children(&["a"]);
    app.tabs[0].state = TabState::EditCreateNodeData;
    app.tabs[0].node_path_buf = "/a/b".to_owned();
    app.tabs[0].node_data_buf = "hello".to_owned();
    app.handle_command(Command::Submit);
    app.handle_event(StoreEvent::Created(Err("node exists".to_owned())));
    assert_eq!(app.tabs[0].message, "Node creation failed : node exists");
    assert_eq!(app.tabs[0].node_path_buf, "/a/b");
    assert_eq!(app.tabs[0].node_data_buf, "hello");
}

#[test]
fn delete_flow_requires_the_exact_confirmation_string() {
    let mut app = connected_app_with_children(&["a"]);
    app.handle_command(Command::MoveDown);
    app.handle_command(Command::OpenDelete);
    assert_eq!(app.tabs[0].state, TabState::DeleteNode);
    assert_eq!(app.tabs[0].node_path_buf, "/a");
    app.handle_command(Command::Submit);
    assert_eq!(app.tabs[0].state, TabState::ConfirmDelete);
    for c in "DELETE".chars() {
        app.handle_command(Command::CharInsert(c));
    }
    let act = app.handle_command(Command::Submit);
    assert_eq!(act, Action::Delete("/a".to_owned()));
    assert_eq!(app.tabs[0].input_buf, "");
    let follow = app.handle_event(StoreEvent::Deleted(Ok(())));
    assert_eq!(app.tabs[0].message, "Node /a successfully deleted");
    assert_eq!(app.tabs[0].state, TabState::Tab);
    assert_eq!(app.tabs[0].curr_resource, None);
    assert_eq!(
        follow,
        Action::FetchChildren("/".to_owned(), ChildrenCtx::Revisit)
    );
}

#[test]
fn lowercase_confirmation_is_rejected() {
    let mut app = connected_app_with_children(&["a"]);
    app.tabs[0].state = TabState::ConfirmDelete;
    app.tabs[0].input_buf = "delete".to_owned();
    let act = app.handle_command(Command::Submit);
    assert_eq!(act, Action::Idle);
    assert_eq!(app.tabs[0].message, "Incorrect confirmation string");
    assert_eq!(app.tabs[0].state, TabState::ConfirmDelete);
    assert_eq!(app.tabs[0].input_buf, "");
}

#[test]
fn padded_confirmation_is_rejected() {
    let mut app = connected_app_with_children(&["a"]);
    app.tabs[0].state = TabState::ConfirmDelete;
    app.tabs[0].input_buf = "DELETE ".to_owned();
    let act = app.handle_command(Command::Submit);
    assert_eq!(act, Action::Idle);
    assert_eq!(app.tabs[0].message, "Incorrect confirmation string");
    assert_eq!(app.tabs[0].state, TabState::ConfirmDelete);
}

#[test]
fn failed_delete_reports_the_cause() {
    let mut app = connected_app_with_children(&["a"]);
    app.tabs[0].curr_resource = Some("/a".to_owned());
    app.tabs[0].state = TabState::ConfirmDelete;
    app.handle_event(StoreEvent::Deleted(Err("not empty".to_owned())));
    assert_eq!(app.tabs[0].message, "Delete node failed : not empty");
    assert_eq!(app.tabs[0].state, TabState::Tab);
}

#[test]
fn cancel_walks_back_through_the_delete_modes() {
    let mut app = connected_app_with_children(&["a"]);
    app.tabs[0].state = TabState::ConfirmDelete;
    app.handle_command(Command::Cancel);
    assert_eq!(app.tabs[0].state, TabState::DeleteNode);
    app.handle_command(Command::Cancel);
    assert_eq!(app.tabs[0].state, TabState::Tab);
}

#[test]
fn tab_switch_refreshes_the_new_tab_listing() {
    let mut app = connected_app_with_children(&["a"]);
    let act = app.handle_command(Command::NextTab);
    assert_eq!(app.curr_tab, 1);
    assert_eq!(
        act,
        Action::FetchChildren("/".to_owned(), ChildrenCtx::Revisit)
    );
    let act_back = app.handle_command(Command::PrevTab);
    assert_eq!(app.curr_tab, 0);
    assert_eq!(
        act_back,
        Action::FetchChildren("/".to_owned(), ChildrenCtx::Revisit)
    );
}

#[test]
fn revisit_keeps_the_cursor_clamped() {
    let mut app = connected_app_with_children(&["a", "b", "c"]);
    app.tabs[0].selection = Some(2);
    app.handle_event(StoreEvent::Children(
        ChildrenCtx::Revisit,
        Ok(vec!["x".to_owned(), "y".to_owned()]),
    ));
    assert_eq!(app.tabs[0].selection, Some(1));
    app.handle_event(StoreEvent::Children(
        ChildrenCtx::Revisit,
        Ok(vec!["x".to_owned(), "y".to_owned(), "z".to_owned()]),
    ));
    assert_eq!(app.tabs[0].selection, Some(1));
}

#[test]
fn quitting_is_only_accepted_while_browsing() {
    let mut app = connected_app_with_children(&["a"]);
    assert_eq!(app.handle_command(Command::Quit), Action::Quit);
    app.tabs[0].state = TabState::ReadNodeData;
    assert_eq!(app.handle_command(Command::Quit), Action::Idle);
}

#[test]
fn connection_screen_edits_the_connection_string() {
    let mut app = App::new(local_connection());
    assert_eq!(app.handle_command(Command::Quit), Action::Quit);
    let act = app.handle_command(Command::Submit);
    assert_eq!(act, Action::Connect("127.0.0.1:2181".to_owned()));
    app.handle_command(Command::EditConnection);
    assert_eq!(app.state, AppState::EditingConnection);
    app.handle_command(Command::Backspace);
    app.handle_command(Command::CharInsert('9'));
    assert_eq!(app.connection_input, "127.0.0.1:2189");
    app.handle_command(Command::Submit);
    assert_eq!(app.state, AppState::EstablishingConnection);
    let act2 = app.handle_command(Command::Submit);
    assert_eq!(act2, Action::Connect("127.0.0.1:2189".to_owned()));
}

#[test]
fn store_requests_without_a_client_leave_a_message() {
    let mut app = App::new(local_connection());
    app.state = AppState::Tab;
    app.tabs[0].state = TabState::EditCreateNodePath;
    let act = app.handle_command(Command::Submit);
    assert_eq!(act, Action::Idle);
    assert_eq!(app.tabs[0].message, "Failed to get zookeeper client");
    app.tabs[0].message = String::new();
    app.tabs[0].state = TabState::Tab;
    assert_eq!(app.handle_command(Command::OpenRead), Action::Idle);
    assert_eq!(app.tabs[0].message, "Failed to get zookeeper client");
    app.tabs[0].state = TabState::ConfirmDelete;
    app.tabs[0].input_buf = "DELETE".to_owned();
    let del = app.handle_command(Command::Submit);
    assert_eq!(del, Action::Idle);
    assert_eq!(app.tabs[0].message, "Failed to get zookeeper client");
    assert_eq!(app.tabs[0].state, TabState::Tab);
}

#[test]
fn fetch_commands_without_a_client_surface_the_absence() {
    let mut app = App::new(local_connection());
    app.state = AppState::Tab;
    app.tabs[0].tab_data = vec!["a".to_owned()];
    app.tabs[0].selection = Some(0);

    assert_eq!(app.handle_command(Command::MoveDown), Action::Idle);
    assert_eq!(app.tabs[0].message, "Failed to get zookeeper client");

    app.tabs[0].message = String::new();
    assert_eq!(app.handle_command(Command::Enter), Action::Idle);
    assert_eq!(app.tabs[0].message, "Failed to get zookeeper client");

    app.tabs[0].message = String::new();
    app.tabs[0].curr_resource = Some("/a".to_owned());
    assert_eq!(app.handle_command(Command::Back), Action::Idle);
    assert_eq!(app.tabs[0].curr_resource, None);
    assert_eq!(app.tabs[0].message, "Failed to get zookeeper client");

    app.tabs[0].message = String::new();
    app.tabs[0].toggle_stats_auto_load = false;
    assert_eq!(app.handle_command(Command::MoveUp), Action::Idle);
    assert_eq!(app.tabs[0].message, "");
}

#[test]
fn store_answers_land_in_the_active_tab_only() {
    let mut app = connected_app_with_children(&["first"]);
    app.handle_command(Command::NextTab);
    assert_eq!(app.curr_tab, 1);
    app.handle_event(StoreEvent::Children(
        ChildrenCtx::Revisit,
        Ok(vec!["second".to_owned()]),
    ));
    assert_eq!(app.tabs[1].tab_data, vec!["second".to_owned()]);
    assert_eq!(app.tabs[1].message, "Full path : /\n");
    assert_eq!(app.tabs[0].tab_data, vec!["first".to_owned()]);
    app.handle_command(Command::PrevTab);
    assert_eq!(app.curr_tab, 0);
    assert_eq!(app.tabs[0].tab_data, vec!["first".to_owned()]);
}

#[test]
fn each_tab_keeps_its_own_navigation() {
    let mut app = connected_app_with_children(&["zookeeper"]);
    app.handle_command(Command::MoveDown);
    app.handle_command(Command::Enter);
    app.handle_event(StoreEvent::Children(
        ChildrenCtx::Descend,
        Ok(vec!["config".to_owned()]),
    ));
    assert_eq!(app.tab_full_resource_path(), "/zookeeper");
    app.handle_command(Command::NextTab);
    assert_eq!(app.tab_full_resource_path(), "/");
    app.handle_command(Command::PrevTab);
    assert_eq!(app.tab_full_resource_path(), "/zookeeper");
}

#[test]
fn unrecognized_commands_stay_in_place() {
    let mut app = connected_app_with_children(&["a"]);
    let before = app.tabs[0].tab_data.clone();
    assert_eq!(app.handle_command(Command::AsJson), Action::Idle);
    assert_eq!(app.handle_command(Command::SwitchField), Action::Idle);
    assert_eq!(app.handle_command(Command::Edit), Action::Idle);
    assert_eq!(app.tabs[0].state, TabState::Tab);
    assert_eq!(app.tabs[0].tab_data, before);
}
