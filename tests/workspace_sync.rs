use tokio::sync::broadcast::error::TryRecvError;
use workspace_sync::client::{EventClient, CHANNEL_CAPACITY};
use workspace_sync::events::{apply_event, focus_transition, WorkspaceEvent};
use workspace_sync::store::WorkspaceStore;
use workspace_sync::workspace::{id_to_string, Workspace, WorkspaceInfo, WorkspaceType, WorkspaceUpdate};

fn info(id: i32, monitor: &str) -> WorkspaceInfo {
    WorkspaceInfo { id, name: id.to_string(), monitor: monitor.to_string() }
}

fn infos(ids: &[i32]) -> Vec<WorkspaceInfo> {
    ids.iter().map(|&id| info(id, "DP-1")).collect()
}

fn regular(name: &str) -> WorkspaceType {
    WorkspaceType::Regular(name.to_string())
}

fn store_with(active: i32, ids: &[i32]) -> WorkspaceStore {
    let mut store = WorkspaceStore::new();
    store.refresh(active, &infos(ids));
    store
}

fn summary(list: &[Workspace]) -> Vec<(String, bool)> {
    list.iter().map(|w| (w.id.clone(), w.focused)).collect()
}

fn pair(id: &str, focused: bool) -> (String, bool) {
    (id.to_string(), focused)
}

fn expect_focus(update: &WorkspaceUpdate, old: &str, new: &str) {
    match update {
        WorkspaceUpdate::Focus { old: o, new: n } => {
            assert_eq!(o.id, old);
            assert_eq!(n.id, new);
        }
        other => panic!("expected a focus change, got {:?}", other),
    }
}

#[test]
fn refresh_marks_the_active_workspace() {
    let store = store_with(2, &[1, 2, 3]);
    assert_eq!(
        summary(&store.workspaces()),
        vec![pair("1", false), pair("2", true), pair("3", false)]
    );
    assert_eq!(store.get_focused_workspace().unwrap().id, "2");
}

#[test]
fn refresh_without_active_workspace_has_no_focus() {
    let store = store_with(9, &[1, 2]);
    assert!(store.get_focused_workspace().is_none());
    assert!(store.workspaces().iter().all(|w| !w.focused));
}

#[test]
fn refresh_with_repeated_identifier_focuses_one() {
    let store = store_with(4, &[4, 4]);
    assert_eq!(summary(&store.workspaces()), vec![pair("4", true), pair("4", false)]);
}

#[test]
fn refresh_replaces_the_whole_list() {
    let mut store = store_with(1, &[1, 2, 3]);
    store.refresh(5, &infos(&[5]));
    assert_eq!(summary(&store.workspaces()), vec![pair("5", true)]);
}

#[test]
fn negative_identifier_is_written_in_decimal() {
    let store = store_with(-99, &[-99, 0, 12]);
    let ids: Vec<String> = store.workspaces().iter().map(|w| w.id.clone()).collect();
    assert_eq!(ids, vec!["-99", "0", "12"]);
    assert!(store.get_workspace(&"-99".to_string()).unwrap().focused);
}

#[test]
fn lookup_of_unknown_identifier_is_absent() {
    let store = store_with(1, &[1, 2]);
    assert!(store.get_workspace(&"7".to_string()).is_none());
    let w = store.get_workspace(&"2".to_string()).unwrap();
    assert_eq!(w.name, "2");
    assert_eq!(w.monitor, "DP-1");
    assert!(!w.focused);
}

#[test]
fn empty_store_has_nothing() {
    let store = WorkspaceStore::new();
    assert!(store.workspaces().is_empty());
    assert!(store.get_focused_workspace().is_none());
    match store.init_update() {
        WorkspaceUpdate::Init(list) => assert!(list.is_empty()),
        other => panic!("expected a snapshot, got {:?}", other),
    }
}

#[test]
fn id_to_string_of_each_kind() {
    assert_eq!(id_to_string(regular("3")), "3");
    assert_eq!(id_to_string(WorkspaceType::Special(Some("magic".to_string()))), "magic");
    assert_eq!(id_to_string(WorkspaceType::Special(None)), "");
}

#[test]
fn focus_transition_only_between_different_workspaces() {
    let store = store_with(1, &[1, 2]);
    let a = store.get_workspace(&"1".to_string()).unwrap();
    let b = store.get_workspace(&"2".to_string()).unwrap();
    expect_focus(&focus_transition(&a, &b).unwrap(), "1", "2");
    assert!(focus_transition(&a, &a).is_none());
}

#[test]
fn changed_event_to_another_workspace() {
    let mut store = store_with(1, &[1, 2]);
    let out = apply_event(&mut store, WorkspaceEvent::Changed(regular("2")), 2, &infos(&[1, 2]));
    assert_eq!(out.len(), 2);
    match &out[0] {
        WorkspaceUpdate::Focus { old, new } => {
            assert_eq!((old.id.as_str(), old.focused), ("1", true));
            assert_eq!((new.id.as_str(), new.focused), ("2", true));
        }
        other => panic!("expected a focus change, got {:?}", other),
    }
    match &out[1] {
        WorkspaceUpdate::Update(w) => assert_eq!((w.id.as_str(), w.focused), ("2", true)),
        other => panic!("expected an update, got {:?}", other),
    }
    assert_eq!(summary(&store.workspaces()), vec![pair("1", false), pair("2", true)]);
}

#[test]
fn changed_event_on_the_same_workspace() {
    let mut store = store_with(1, &[1, 2]);
    let out = apply_event(&mut store, WorkspaceEvent::Changed(regular("1")), 1, &infos(&[1, 2]));
    assert_eq!(out.len(), 1);
    assert!(matches!(&out[0], WorkspaceUpdate::Update(w) if w.id == "1"));
}

#[test]
fn changed_event_without_prior_focus_gives_nothing() {
    let mut store = WorkspaceStore::new();
    let out = apply_event(&mut store, WorkspaceEvent::Changed(regular("2")), 2, &infos(&[1, 2]));
    assert!(out.is_empty());
    assert_eq!(summary(&store.workspaces()), vec![pair("1", false), pair("2", true)]);
}

#[test]
fn changed_event_for_unknown_workspace_gives_nothing() {
    let mut store = store_with(1, &[1, 2]);
    let out = apply_event(&mut store, WorkspaceEvent::Changed(regular("8")), 1, &infos(&[1, 2]));
    assert!(out.is_empty());
}

#[test]
fn destroyed_event_removes_the_workspace() {
    let mut store = store_with(1, &[1, 2]);
    let out = apply_event(&mut store, WorkspaceEvent::Destroyed(regular("2")), 1, &infos(&[1]));
    assert_eq!(out.len(), 1);
    assert!(matches!(&out[0], WorkspaceUpdate::Remove(w) if w.id == "2"));
    assert_eq!(summary(&store.workspaces()), vec![pair("1", true)]);
}

#[test]
fn destroyed_event_for_unknown_workspace_still_refreshes() {
    let mut store = store_with(1, &[1, 2]);
    let out = apply_event(&mut store, WorkspaceEvent::Destroyed(regular("5")), 1, &infos(&[1]));
    assert!(out.is_empty());
    assert_eq!(summary(&store.workspaces()), vec![pair("1", true)]);
}

#[test]
fn added_event_reports_the_new_workspace() {
    let mut store = store_with(1, &[1]);
    let out = apply_event(&mut store, WorkspaceEvent::Added(regular("3")), 1, &infos(&[1, 3]));
    assert_eq!(out.len(), 1);
    assert!(matches!(&out[0], WorkspaceUpdate::Add(w) if w.id == "3" && !w.focused));
    assert_eq!(summary(&store.workspaces()), vec![pair("1", true), pair("3", false)]);
}

#[test]
fn added_event_for_missing_workspace_is_dropped() {
    let mut store = store_with(1, &[1]);
    let out = apply_event(&mut store, WorkspaceEvent::Added(regular("3")), 1, &infos(&[1]));
    assert!(out.is_empty());
}

#[test]
fn moved_event_carries_the_new_monitor() {
    let mut store = store_with(1, &[1, 2]);
    let after = vec![info(1, "DP-1"), info(2, "HDMI-A-1")];
    let out = apply_event(&mut store, WorkspaceEvent::Moved(regular("2")), 1, &after);
    assert_eq!(out.len(), 1);
    assert!(matches!(&out[0], WorkspaceUpdate::Move(w) if w.id == "2" && w.monitor == "HDMI-A-1"));
}

#[test]
fn monitor_change_gives_focus_only() {
    let mut store = store_with(1, &[1, 2]);
    let out = apply_event(
        &mut store,
        WorkspaceEvent::ActiveMonitorChanged(regular("2")),
        2,
        &infos(&[1, 2]),
    );
    assert_eq!(out.len(), 1);
    expect_focus(&out[0], "1", "2");
}

#[test]
fn monitor_change_to_the_same_workspace_gives_nothing() {
    let mut store = store_with(2, &[1, 2]);
    let out = apply_event(
        &mut store,
        WorkspaceEvent::ActiveMonitorChanged(regular("2")),
        2,
        &infos(&[1, 2]),
    );
    assert!(out.is_empty());
}

#[test]
fn every_event_keeps_at_most_one_focus() {
    let mut store = store_with(1, &[1, 2, 3]);
    let steps = vec![
        (WorkspaceEvent::Changed(regular("3")), 3, vec![1, 2, 3]),
        (WorkspaceEvent::Destroyed(regular("3")), 9, vec![1, 2]),
        (WorkspaceEvent::Added(regular("4")), 4, vec![1, 2, 4, 4]),
        (WorkspaceEvent::ActiveMonitorChanged(regular("2")), 2, vec![2, 1]),
        (WorkspaceEvent::Moved(regular("1")), 2, vec![1, 2]),
    ];
    for (event, active, ids) in steps {
        apply_event(&mut store, event, active, &infos(&ids));
        assert!(store.workspaces().iter().filter(|w| w.focused).count() <= 1);
    }
}

#[test]
fn subscription_starts_with_the_snapshot() {
    let mut client = EventClient::new(1, &infos(&[1, 2]));
    client.handle_event(WorkspaceEvent::Changed(regular("2")), 2, &infos(&[1, 2]));
    let mut rx = client.subscribe_workspace_change(2, &infos(&[1, 2, 3]));
    match rx.try_recv().unwrap() {
        WorkspaceUpdate::Init(list) => {
            assert_eq!(summary(&list), vec![pair("1", false), pair("2", true), pair("3", false)]);
            assert_eq!(summary(&list), summary(&client.workspaces()));
        }
        other => panic!("expected a snapshot, got {:?}", other),
    }
    assert!(matches!(rx.try_recv(), Err(TryRecvError::Empty)));
}

#[test]
fn subscriber_sees_updates_in_order() {
    let mut client = EventClient::new(1, &infos(&[1, 2]));
    let mut rx = client.subscribe_workspace_change(1, &infos(&[1, 2]));
    assert!(matches!(rx.try_recv().unwrap(), WorkspaceUpdate::Init(_)));
    client.handle_event(WorkspaceEvent::Changed(regular("2")), 2, &infos(&[1, 2]));
    expect_focus(&rx.try_recv().unwrap(), "1", "2");
    assert!(matches!(rx.try_recv().unwrap(), WorkspaceUpdate::Update(w) if w.id == "2"));
    assert!(matches!(rx.try_recv(), Err(TryRecvError::Empty)));
}

#[test]
fn earlier_subscriber_also_gets_a_later_snapshot() {
    let mut client = EventClient::new(1, &infos(&[1]));
    let mut first = client.subscribe_workspace_change(1, &infos(&[1]));
    let _second = client.subscribe_workspace_change(1, &infos(&[1, 2]));
    assert!(matches!(first.try_recv().unwrap(), WorkspaceUpdate::Init(l) if l.len() == 1));
    assert!(matches!(first.try_recv().unwrap(), WorkspaceUpdate::Init(l) if l.len() == 2));
}

#[test]
fn slow_subscriber_sees_a_gap() {
    let mut client = EventClient::new(1, &infos(&[1, 2]));
    let mut rx = client.subscribe_workspace_change(1, &infos(&[1, 2]));
    for _ in 0..(CHANNEL_CAPACITY + 4) {
        client.handle_event(WorkspaceEvent::Changed(regular("1")), 1, &infos(&[1, 2]));
    }
    assert!(matches!(rx.try_recv(), Err(TryRecvError::Lagged(_))));
    assert!(rx.try_recv().is_ok());
    assert!(client.can_subscribe());
}
